//! POSIX permission bits rendered as `rwx` triplets.

use vstd::prelude::*;
use vstd::string::*;

verus! {

/// The read, write and execute masks of one subject class.
#[derive(Clone, Copy, Debug)]
pub struct ClassBits {
    pub read: u16,
    pub write: u16,
    pub execute: u16,
}

/// The masks of the three subject classes.
#[derive(Clone, Copy, Debug)]
pub struct ModeBits {
    pub owner: ClassBits,
    pub group: ClassBits,
    pub other: ClassBits,
}

/// The masks that POSIX assigns to the nine permission bits.
pub open spec fn posix_bits() -> ModeBits {
    ModeBits {
        owner: ClassBits { read: 0o400, write: 0o200, execute: 0o100 },
        group: ClassBits { read: 0o040, write: 0o020, execute: 0o010 },
        other: ClassBits { read: 0o004, write: 0o002, execute: 0o001 },
    }
}

/// The letter of a granted permission, a dash for one that is withheld.
pub open spec fn mark(granted: bool, letter: char) -> char {
    if granted {
        letter
    } else {
        '-'
    }
}

/// The three characters that show one class's permissions.
pub open spec fn triplet_text(read: bool, write: bool, execute: bool) -> Seq<char> {
    seq![mark(read, 'r'), mark(write, 'w'), mark(execute, 'x')]
}

/// The triplet of one class, read off `mode` through the class's masks.
pub open spec fn class_text(mode: u16, bits: ClassBits) -> Seq<char> {
    triplet_text(mode & bits.read != 0, mode & bits.write != 0, mode & bits.execute != 0)
}

/// The permission string of `mode`: owner, group and other, joined by `|`.
pub open spec fn permission_text(mode: u16) -> Seq<char> {
    class_text(mode, posix_bits().owner) + seq!['|'] + class_text(mode, posix_bits().group)
        + seq!['|'] + class_text(mode, posix_bits().other)
}

/// Whether `c` can stand at the given place of a triplet.
pub open spec fn is_mark(c: char, letter: char) -> bool {
    c == letter || c == '-'
}

/// The masks as the platform's C library defines them.
///
/// Reads `S_IRUSR`, `S_IWUSR`, `S_IXUSR`, `S_IRGRP`, `S_IWGRP`, `S_IXGRP`,
/// `S_IROTH`, `S_IWOTH` and `S_IXOTH` of the `libc` crate. Trusted: that these
/// constants have the values POSIX gives them, on every target that has them.
#[verifier::external_body]
fn platform_bits() -> (bits: ModeBits)
    ensures
        bits == posix_bits(),
{
    let (ur, uw, ux) = (libc::S_IRUSR, libc::S_IWUSR, libc::S_IXUSR);
    let (gr, gw, gx) = (libc::S_IRGRP, libc::S_IWGRP, libc::S_IXGRP);
    let (or, ow, ox) = (libc::S_IROTH, libc::S_IWOTH, libc::S_IXOTH);
    ModeBits {
        owner: ClassBits { read: ur as u16, write: uw as u16, execute: ux as u16 },
        group: ClassBits { read: gr as u16, write: gw as u16, execute: gx as u16 },
        other: ClassBits { read: or as u16, write: ow as u16, execute: ox as u16 },
    }
}

/// Renders the three bits that `read`, `write` and `execute` select in `mode`.
pub fn triplet(mode: u16, read: u16, write: u16, execute: u16) -> (text: String)
    ensures
        text@ == triplet_text(mode & read != 0, mode & write != 0, mode & execute != 0),
{
    proof {
        reveal_strlit("---");
        reveal_strlit("r--");
        reveal_strlit("-w-");
        reveal_strlit("--x");
        reveal_strlit("r-x");
        reveal_strlit("rw-");
        reveal_strlit("-wx");
        reveal_strlit("rwx");
    }
    let text = match (mode & read, mode & write, mode & execute) {
        (0, 0, 0) => "---",
        (_, 0, 0) => "r--",
        (0, _, 0) => "-w-",
        (0, 0, _) => "--x",
        (_, 0, _) => "r-x",
        (_, _, 0) => "rw-",
        (0, _, _) => "-wx",
        (_, _, _) => "rwx",
    };
    assert(text@ =~= triplet_text(mode & read != 0, mode & write != 0, mode & execute != 0));
    text.to_owned()
}

/// Renders the permission string of `mode`.
///
/// Only the nine permission bits are read; the result always has the same
/// shape, three triplets with a `|` between them.
pub fn parse_permissions(mode: u16) -> (text: String)
    ensures
        text@ == permission_text(mode),
        text@.len() == 11,
{
    let bits = platform_bits();
    let user = triplet(mode, bits.owner.read, bits.owner.write, bits.owner.execute);
    let group = triplet(mode, bits.group.read, bits.group.write, bits.group.execute);
    let other = triplet(mode, bits.other.read, bits.other.write, bits.other.execute);
    proof {
        reveal_strlit("|");
    }
    let mut text = user;
    text.append("|");
    text.append(group.as_str());
    text.append("|");
    text.append(other.as_str());
    text
}

/// The permission string of every mode has eleven characters: a `|` at the
/// fourth and at the eighth place, and around them three triplets, each an
/// `r` or a dash, a `w` or a dash, an `x` or a dash, in that order.
pub proof fn lemma_permission_text_shape(mode: u16)
    ensures
        permission_text(mode).len() == 11,
        permission_text(mode)[3] == '|',
        permission_text(mode)[7] == '|',
        forall|class: int|
            0 <= class < 3 ==> {
                &&& is_mark(#[trigger] permission_text(mode)[4 * class], 'r')
                &&& is_mark(permission_text(mode)[4 * class + 1], 'w')
                &&& is_mark(permission_text(mode)[4 * class + 2], 'x')
            },
{
}

/// Bits of `mode` outside the nine permission bits change nothing.
pub proof fn lemma_permission_text_reads_nine_bits(mode: u16)
    ensures
        permission_text(mode) == permission_text(mode & 0o777),
{
    assert(forall|mask: u16|
        (mask == 0o400 || mask == 0o200 || mask == 0o100 || mask == 0o040 || mask == 0o020 || mask
            == 0o010 || mask == 0o004 || mask == 0o002 || mask == 0o001) ==> (#[trigger] (mode
            & mask)) == (mode & 0o777) & mask) by (bit_vector);
}

/// Each of the nine bits is shown at a place of its own.
proof fn lemma_place_shows_bit(mode: u16)
    ensures
        permission_text(mode)[0] == mark(mode & 0o400 != 0, 'r'),
        permission_text(mode)[1] == mark(mode & 0o200 != 0, 'w'),
        permission_text(mode)[2] == mark(mode & 0o100 != 0, 'x'),
        permission_text(mode)[4] == mark(mode & 0o040 != 0, 'r'),
        permission_text(mode)[5] == mark(mode & 0o020 != 0, 'w'),
        permission_text(mode)[6] == mark(mode & 0o010 != 0, 'x'),
        permission_text(mode)[8] == mark(mode & 0o004 != 0, 'r'),
        permission_text(mode)[9] == mark(mode & 0o002 != 0, 'w'),
        permission_text(mode)[10] == mark(mode & 0o001 != 0, 'x'),
{
}

/// Two modes have the same permission string exactly when they agree on
/// the nine permission bits.
pub proof fn lemma_permission_text_injective(a: u16, b: u16)
    ensures
        permission_text(a) == permission_text(b) <==> a & 0o777 == b & 0o777,
{
    lemma_permission_text_reads_nine_bits(a);
    lemma_permission_text_reads_nine_bits(b);
    if permission_text(a) == permission_text(b) {
        lemma_place_shows_bit(a);
        lemma_place_shows_bit(b);
        let (a8, a7, a6) = (a & 0o400 != 0, a & 0o200 != 0, a & 0o100 != 0);
        let (a5, a4, a3) = (a & 0o040 != 0, a & 0o020 != 0, a & 0o010 != 0);
        let (a2, a1, a0) = (a & 0o004 != 0, a & 0o002 != 0, a & 0o001 != 0);
        let (b8, b7, b6) = (b & 0o400 != 0, b & 0o200 != 0, b & 0o100 != 0);
        let (b5, b4, b3) = (b & 0o040 != 0, b & 0o020 != 0, b & 0o010 != 0);
        let (b2, b1, b0) = (b & 0o004 != 0, b & 0o002 != 0, b & 0o001 != 0);
        assert(a8 == b8 && a7 == b7 && a6 == b6);
        assert(a5 == b5 && a4 == b4 && a3 == b3);
        assert(a2 == b2 && a1 == b1 && a0 == b0);
        assert(a & 0o777 == b & 0o777) by (bit_vector)
            requires
                (a & 0o400 != 0) == (b & 0o400 != 0),
                (a & 0o200 != 0) == (b & 0o200 != 0),
                (a & 0o100 != 0) == (b & 0o100 != 0),
                (a & 0o040 != 0) == (b & 0o040 != 0),
                (a & 0o020 != 0) == (b & 0o020 != 0),
                (a & 0o010 != 0) == (b & 0o010 != 0),
                (a & 0o004 != 0) == (b & 0o004 != 0),
                (a & 0o002 != 0) == (b & 0o002 != 0),
                (a & 0o001 != 0) == (b & 0o001 != 0),
        ;
    }
}

} // verus!
