//! The command line: the form in which the mount table hands it down, and
//! where each argument goes.

use vstd::prelude::*;
use crate::bytes::{append, copy_range, find, position_from, split, split_spec, views};
use crate::flags::{
    parse, parse_disk_space, parse_number, parse_u64_spec, DiskSpace, FlagStorage, ParseFault,
};

verus! {

pub const HASH: u8 = 0x23;

pub const COMMA: u8 = 0x2c;

pub const DASH: u8 = 0x2d;

/// The argument `-o`.
pub open spec fn dash_o() -> Seq<u8> {
    seq![0x2du8, 0x6fu8]
}

/// The options that every mount gets.
pub open spec fn atomic_o_trunc() -> Seq<u8> {
    seq![0x61u8, 0x74, 0x6f, 0x6d, 0x69, 0x63, 0x5f, 0x6f, 0x5f, 0x74, 0x72, 0x75, 0x6e, 0x63]
}

pub open spec fn default_permissions() -> Seq<u8> {
    seq![
        0x64u8,
        0x65,
        0x66,
        0x61,
        0x75,
        0x6c,
        0x74,
        0x5f,
        0x70,
        0x65,
        0x72,
        0x6d,
        0x69,
        0x73,
        0x73,
        0x69,
        0x6f,
        0x6e,
        0x73,
    ]
}

/// Whether the arguments have the form of the mount table: the program,
/// `source#cache`, the mount point, `-o` and a list of options.
pub open spec fn is_fstab(argv: Seq<Seq<u8>>) -> bool {
    argv.len() == 5 && argv[3] == dash_o() && position_from(argv[1], HASH, 0) < argv[1].len()
}

pub open spec fn is_dashed(piece: Seq<u8>) -> bool {
    piece.len() > 0 && piece[0] == DASH
}

/// Those of `pieces` that begin with a dash, where `dashed`, or those that
/// do not, in their order.
pub open spec fn choose_pieces(pieces: Seq<Seq<u8>>, dashed: bool) -> Seq<Seq<u8>>
    decreases pieces.len(),
{
    if pieces.len() == 0 {
        Seq::<Seq<u8>>::empty()
    } else if is_dashed(pieces.last()) == dashed {
        choose_pieces(pieces.drop_last(), dashed).push(pieces.last())
    } else {
        choose_pieces(pieces.drop_last(), dashed)
    }
}

/// The pieces with a comma between each two.
pub open spec fn join_commas(pieces: Seq<Seq<u8>>) -> Seq<u8>
    decreases pieces.len(),
{
    if pieces.len() == 0 {
        Seq::<u8>::empty()
    } else if pieces.len() == 1 {
        pieces[0]
    } else {
        join_commas(pieces.drop_last()) + seq![COMMA] + pieces.last()
    }
}

/// The arguments as the program reads them.
///
/// Arguments in the form of the mount table are rewritten: the source and
/// the cache become arguments of their own; the options that begin with a
/// dash become arguments too, the last of them first; the other options
/// stay a list behind `-o`, which goes where there are none. Other
/// arguments stay as they are.
pub open spec fn fstab_spec(argv: Seq<Seq<u8>>) -> Seq<Seq<u8>> {
    if !is_fstab(argv) {
        argv
    } else {
        let cut = position_from(argv[1], HASH, 0);
        let pieces = split_spec(argv[4], COMMA);
        let plain = choose_pieces(pieces, false);
        seq![argv[0], argv[1].subrange(0, cut), argv[1].subrange(cut + 1, argv[1].len() as int)]
            + choose_pieces(pieces, true).reverse() + seq![argv[2]] + (if plain.len() > 0 {
            seq![dash_o(), join_commas(plain)]
        } else {
            Seq::<Seq<u8>>::empty()
        })
    }
}

fn copy_of(v: &Vec<u8>) -> (r: Vec<u8>)
    ensures
        r@ == v@,
{
    let r = copy_range(v.as_slice(), 0, v.len());
    proof {
        assert(v@.subrange(0, v@.len() as int) =~= v@);
    }
    r
}

fn is_dash_o(arg: &[u8]) -> (r: bool)
    ensures
        r == (arg@ == dash_o()),
{
    if arg.len() == 2 && arg[0] == 0x2d && arg[1] == 0x6f {
        assert(arg@ =~= dash_o());
        true
    } else {
        false
    }
}

fn new_dash_o() -> (r: Vec<u8>)
    ensures
        r@ == dash_o(),
{
    let mut v: Vec<u8> = Vec::new();
    v.push(0x2d);
    v.push(0x6f);
    assert(v@ =~= dash_o());
    v
}

/// Rewrites arguments that have the form of the mount table.
pub fn fstab_args(argv: Vec<Vec<u8>>) -> (r: Vec<Vec<u8>>)
    ensures
        views(r@) == fstab_spec(views(argv@)),
{
    let ghost args = views(argv@);
    if argv.len() != 5 {
        return argv;
    }
    proof {
        assert(args[3] == argv@[3]@);
        assert(args[1] == argv@[1]@);
    }
    if !is_dash_o(argv[3].as_slice()) {
        return argv;
    }
    let cut = find(argv[1].as_slice(), HASH, 0);
    if cut >= argv[1].len() {
        return argv;
    }
    let pieces = split(argv[4].as_slice(), COMMA);
    let ghost all = split_spec(args[4], COMMA);
    proof {
        assert(args[4] == argv@[4]@);
        assert(views(pieces@) == all);
    }
    let mut dashed: Vec<Vec<u8>> = Vec::new();
    let mut plain: Vec<u8> = Vec::new();
    let mut any_plain = false;
    let mut i: usize = 0;
    proof {
        assert(all.take(0) =~= Seq::<Seq<u8>>::empty());
        assert(views(dashed@) =~= Seq::<Seq<u8>>::empty());
    }
    while i < pieces.len()
        invariant
            i <= pieces@.len(),
            views(pieces@) == all,
            views(dashed@) == choose_pieces(all.take(i as int), true),
            any_plain == (choose_pieces(all.take(i as int), false).len() > 0),
            plain@ == join_commas(choose_pieces(all.take(i as int), false)),
        decreases pieces@.len() - i,
    {
        let piece = &pieces[i];
        proof {
            assert(all[i as int] == piece@);
            assert(all.take(i + 1).drop_last() =~= all.take(i as int));
            assert(all.take(i + 1).last() == piece@);
        }
        if piece.len() > 0 && piece[0] == DASH {
            let ghost before = views(dashed@);
            dashed.push(copy_of(piece));
            proof {
                assert(views(dashed@) =~= before.push(piece@));
            }
        } else {
            let ghost chosen = choose_pieces(all.take(i as int), false);
            if any_plain {
                plain.push(COMMA);
            }
            append(&mut plain, piece.as_slice());
            proof {
                assert(chosen.push(piece@).drop_last() =~= chosen);
                assert(plain@ =~= join_commas(chosen.push(piece@)));
            }
            any_plain = true;
        }
        i = i + 1;
    }
    proof {
        assert(all.take(pieces@.len() as int) =~= all);
    }
    let mut out: Vec<Vec<u8>> = Vec::new();
    out.push(copy_of(&argv[0]));
    out.push(copy_range(argv[1].as_slice(), 0, cut));
    out.push(copy_range(argv[1].as_slice(), cut + 1, argv[1].len()));
    let ghost head = views(out@);
    let ghost picked = views(dashed@);
    let mut k: usize = dashed.len();
    proof {
        assert(head =~= seq![
            args[0],
            args[1].subrange(0, cut as int),
            args[1].subrange(cut + 1, args[1].len() as int),
        ]);
        assert(views(out@) =~= head + picked.reverse().take(0));
    }
    while k > 0
        invariant
            k <= dashed@.len(),
            picked == views(dashed@),
            views(out@) == head + picked.reverse().take(dashed@.len() - k),
        decreases k,
    {
        k = k - 1;
        let ghost before = views(out@);
        out.push(copy_of(&dashed[k]));
        proof {
            let n = dashed@.len() as int;
            assert(picked.reverse()[n - 1 - k] == picked[k as int]);
            assert(picked[k as int] == dashed@[k as int]@);
            assert(views(out@) =~= before.push(dashed@[k as int]@));
            assert(picked.reverse().take(n - k) =~= picked.reverse().take(n - 1 - k).push(
                picked[k as int],
            ));
            assert(views(out@) =~= head + picked.reverse().take(n - k));
        }
    }
    proof {
        assert(picked.reverse().take(dashed@.len() as int) =~= picked.reverse());
    }
    let ghost middle = views(out@);
    out.push(copy_of(&argv[2]));
    proof {
        assert(args[2] == argv@[2]@);
        assert(views(out@) =~= middle + seq![args[2]]);
    }
    if any_plain {
        let ghost before = views(out@);
        out.push(new_dash_o());
        out.push(plain);
        proof {
            assert(views(out@) =~= before + seq![dash_o(), plain@]);
        }
    } else {
        proof {
            assert(views(out@) + Seq::<Seq<u8>>::empty() =~= views(out@));
        }
    }
    proof {
        assert(is_fstab(args));
    }
    out
}

/// The arguments that the program knows.
#[derive(Debug, Clone, Copy, PartialEq, Eq, Structural)]
pub enum Flag {
    /// `--free`: the free space to keep.
    Space,
    /// `-f`: stay in the foreground.
    Foreground,
    /// `--uid`: the user to run as.
    Uid,
    /// `--gid`: the group to run as.
    Gid,
    /// `-o`: options for the mount.
    Option,
    /// `--test`: leave after reading the arguments.
    Test,
    /// The directory to cache.
    From,
    /// The directory of the cache.
    To,
    /// The directory to mount on.
    MountPoint,
}

/// What reading the arguments leaves behind.
#[derive(Debug)]
pub struct Parsed {
    pub flags: FlagStorage,
    /// Whether the program is to leave after reading the arguments.
    pub test: bool,
}

/// What [`Parsed`] holds, as plain values.
pub struct ParsedView {
    pub cat_from: Seq<u8>,
    pub cat_to: Seq<u8>,
    pub mount_point: Seq<u8>,
    pub mount_options: Seq<Seq<u8>>,
    pub foreground: bool,
    pub free_space: DiskSpace,
    pub uid: u32,
    pub gid: u32,
    pub test: bool,
}

impl View for Parsed {
    type V = ParsedView;

    open spec fn view(&self) -> ParsedView {
        ParsedView {
            cat_from: self.flags.cat_from@,
            cat_to: self.flags.cat_to@,
            mount_point: self.flags.mount_point@,
            mount_options: views(self.flags.mount_options@),
            foreground: self.flags.foreground,
            free_space: self.flags.free_space,
            uid: self.flags.uid,
            gid: self.flags.gid,
            test: self.test,
        }
    }
}

/// Each of `pieces` behind a `-o` of its own.
pub open spec fn as_options(pieces: Seq<Seq<u8>>) -> Seq<Seq<u8>>
    decreases pieces.len(),
{
    if pieces.len() == 0 {
        Seq::<Seq<u8>>::empty()
    } else {
        as_options(pieces.drop_last()) + seq![dash_o(), pieces.last()]
    }
}

/// What a text means as the number of a user or group.
pub open spec fn parse_id_spec(s: Seq<u8>) -> Result<u32, ParseFault> {
    match parse_u64_spec(s) {
        Err(f) => Err(f),
        Ok(n) => if n > u32::MAX {
            Err(ParseFault::TooLarge)
        } else {
            Ok(n as u32)
        },
    }
}

/// What the arguments are after `flag` was given with `value`.
pub open spec fn stored(p: ParsedView, flag: Flag, value: Seq<u8>) -> Result<ParsedView, ParseFault> {
    match flag {
        Flag::Space => match parse_disk_space(value) {
            Ok(d) => Ok(ParsedView { free_space: d, ..p }),
            Err(f) => Err(f),
        },
        Flag::Foreground => Ok(ParsedView { foreground: true, ..p }),
        Flag::Uid => match parse_id_spec(value) {
            Ok(uid) => Ok(ParsedView { uid, ..p }),
            Err(f) => Err(f),
        },
        Flag::Gid => match parse_id_spec(value) {
            Ok(gid) => Ok(ParsedView { gid, ..p }),
            Err(f) => Err(f),
        },
        Flag::Option => Ok(
            ParsedView {
                mount_options: p.mount_options + as_options(split_spec(value, COMMA)),
                ..p
            },
        ),
        Flag::Test => Ok(ParsedView { test: true, ..p }),
        Flag::From => Ok(ParsedView { cat_from: value, ..p }),
        Flag::To => Ok(ParsedView { cat_to: value, ..p }),
        Flag::MountPoint => Ok(ParsedView { mount_point: value, ..p }),
    }
}

fn parse_id(s: &[u8]) -> (r: Result<u32, ParseFault>)
    ensures
        r == parse_id_spec(s@),
{
    match parse_number(s) {
        Err(f) => Err(f),
        Ok(n) => if n > u32::MAX as u64 {
            Err(ParseFault::TooLarge)
        } else {
            Ok(n as u32)
        },
    }
}

fn new_option(bytes: &[u8]) -> (r: Vec<u8>)
    ensures
        r@ == bytes@,
{
    let r = copy_range(bytes, 0, bytes.len());
    proof {
        assert(bytes@.subrange(0, bytes@.len() as int) =~= bytes@);
    }
    r
}

impl Parsed {
    /// The arguments before any was read: nothing is set, and the mount
    /// gets the options `atomic_o_trunc` and `default_permissions`.
    pub fn new() -> (r: Parsed)
        ensures
            r@ == (ParsedView {
                cat_from: Seq::<u8>::empty(),
                cat_to: Seq::<u8>::empty(),
                mount_point: Seq::<u8>::empty(),
                mount_options: seq![dash_o(), atomic_o_trunc(), dash_o(), default_permissions()],
                foreground: false,
                free_space: DiskSpace::Bytes(0),
                uid: 0,
                gid: 0,
                test: false,
            }),
    {
        let mut first: Vec<u8> = Vec::new();
        first.push(0x61);
        first.push(0x74);
        first.push(0x6f);
        first.push(0x6d);
        first.push(0x69);
        first.push(0x63);
        first.push(0x5f);
        first.push(0x6f);
        first.push(0x5f);
        first.push(0x74);
        first.push(0x72);
        first.push(0x75);
        first.push(0x6e);
        first.push(0x63);
        let mut second: Vec<u8> = Vec::new();
        second.push(0x64);
        second.push(0x65);
        second.push(0x66);
        second.push(0x61);
        second.push(0x75);
        second.push(0x6c);
        second.push(0x74);
        second.push(0x5f);
        second.push(0x70);
        second.push(0x65);
        second.push(0x72);
        second.push(0x6d);
        second.push(0x69);
        second.push(0x73);
        second.push(0x73);
        second.push(0x69);
        second.push(0x6f);
        second.push(0x6e);
        second.push(0x73);
        proof {
            assert(first@ =~= atomic_o_trunc());
            assert(second@ =~= default_permissions());
        }
        let mut mount_options: Vec<Vec<u8>> = Vec::new();
        mount_options.push(new_dash_o());
        mount_options.push(first);
        mount_options.push(new_dash_o());
        mount_options.push(second);
        let r = Parsed {
            flags: FlagStorage {
                cat_from: Vec::new(),
                cat_to: Vec::new(),
                mount_point: Vec::new(),
                mount_options,
                foreground: false,
                free_space: DiskSpace::Bytes(0),
                uid: 0,
                gid: 0,
            },
            test: false,
        };
        proof {
            assert(r@.mount_options =~= seq![
                dash_o(),
                atomic_o_trunc(),
                dash_o(),
                default_permissions(),
            ]);
            assert(r@.cat_from =~= Seq::<u8>::empty());
            assert(r@.cat_to =~= Seq::<u8>::empty());
            assert(r@.mount_point =~= Seq::<u8>::empty());
        }
        r
    }

    /// Takes note that `flag` was given, with `value` where it has one.
    ///
    /// A list of mount options is cut at its commas, and each option goes
    /// behind a `-o` of its own. A value that cannot be read leaves
    /// everything as it was.
    pub fn store(&mut self, flag: Flag, value: &[u8]) -> (r: Result<(), ParseFault>)
        ensures
            match stored(old(self)@, flag, value@) {
                Ok(p) => r is Ok && final(self)@ == p,
                Err(f) => r == Err::<(), ParseFault>(f) && final(self)@ == old(self)@,
            },
    {
        match flag {
            Flag::Space => match parse(value) {
                Ok(d) => {
                    self.flags.free_space = d;
                    Ok(())
                },
                Err(f) => Err(f),
            },
            Flag::Foreground => {
                self.flags.foreground = true;
                Ok(())
            },
            Flag::Uid => match parse_id(value) {
                Ok(uid) => {
                    self.flags.uid = uid;
                    Ok(())
                },
                Err(f) => Err(f),
            },
            Flag::Gid => match parse_id(value) {
                Ok(gid) => {
                    self.flags.gid = gid;
                    Ok(())
                },
                Err(f) => Err(f),
            },
            Flag::Option => {
                let pieces = split(value, COMMA);
                let ghost all = split_spec(value@, COMMA);
                let ghost start = views(self.flags.mount_options@);
                let mut i: usize = 0;
                proof {
                    assert(start + as_options(all.take(0)) =~= start);
                }
                while i < pieces.len()
                    invariant
                        i <= pieces@.len(),
                        views(pieces@) == all,
                        views(self.flags.mount_options@) == start + as_options(all.take(i as int)),
                        self.flags.cat_from == old(self).flags.cat_from,
                        self.flags.cat_to == old(self).flags.cat_to,
                        self.flags.mount_point == old(self).flags.mount_point,
                        self.flags.foreground == old(self).flags.foreground,
                        self.flags.free_space == old(self).flags.free_space,
                        self.flags.uid == old(self).flags.uid,
                        self.flags.gid == old(self).flags.gid,
                        self.test == old(self).test,
                    decreases pieces@.len() - i,
                {
                    let ghost before = views(self.flags.mount_options@);
                    self.flags.mount_options.push(new_dash_o());
                    self.flags.mount_options.push(new_option(pieces[i].as_slice()));
                    proof {
                        assert(all[i as int] == pieces@[i as int]@);
                        assert(all.take(i + 1).drop_last() =~= all.take(i as int));
                        assert(views(self.flags.mount_options@) =~= before + seq![
                            dash_o(),
                            all[i as int],
                        ]);
                        assert(views(self.flags.mount_options@) =~= start + as_options(
                            all.take(i + 1),
                        ));
                    }
                    i = i + 1;
                }
                proof {
                    assert(all.take(pieces@.len() as int) =~= all);
                }
                Ok(())
            },
            Flag::Test => {
                self.test = true;
                Ok(())
            },
            Flag::From => {
                self.flags.cat_from = new_option(value);
                Ok(())
            },
            Flag::To => {
                self.flags.cat_to = new_option(value);
                Ok(())
            },
            Flag::MountPoint => {
                self.flags.mount_point = new_option(value);
                Ok(())
            },
        }
    }
}

} // verus!
