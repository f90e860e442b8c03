use vstd::prelude::*;
use vstd::slice::slice_to_vec;
use crate::errors::WriterErrors;

verus! {

/// Newline byte.
pub const NL: u8 = 10;

/// Space byte.
pub const SP: u8 = 32;

/// The bytes of "tree ".
pub open spec fn lit_tree() -> Seq<u8> {
    seq![116u8, 114u8, 101u8, 101u8, 32u8]
}

/// The bytes of "parent ".
pub open spec fn lit_parent() -> Seq<u8> {
    seq![112u8, 97u8, 114u8, 101u8, 110u8, 116u8, 32u8]
}

/// The bytes of "author ".
pub open spec fn lit_author() -> Seq<u8> {
    seq![97u8, 117u8, 116u8, 104u8, 111u8, 114u8, 32u8]
}

/// The bytes of "committer ".
pub open spec fn lit_committer() -> Seq<u8> {
    seq![99u8, 111u8, 109u8, 109u8, 105u8, 116u8, 116u8, 101u8, 114u8, 32u8]
}

/// The bytes of "commit ", the store's object kind for a commit followed by a
/// space.
pub open spec fn lit_commit_kind() -> Seq<u8> {
    seq![99u8, 111u8, 109u8, 109u8, 105u8, 116u8, 32u8]
}

/// The bytes of "-0000", the fixed rendered zone offset.
pub open spec fn lit_offset() -> Seq<u8> {
    seq![45u8, 48u8, 48u8, 48u8, 48u8]
}

/// The decimal digits of a natural number, most significant first.
pub open spec fn dec_rep(n: nat) -> Seq<u8>
    decreases n,
{
    if n < 10 {
        seq![(48 + n) as u8]
    } else {
        dec_rep(n / 10) + seq![(48 + n % 10) as u8]
    }
}

/// The decimal rendering of an integer: the digits of its magnitude, with a
/// leading minus sign when it is negative.
pub open spec fn dec_int(t: int) -> Seq<u8> {
    if t < 0 {
        seq![45u8] + dec_rep((-t) as nat)
    } else {
        dec_rep(t as nat)
    }
}

/// The rendered timestamp of a commit line: the seconds since the epoch in
/// decimal, a space, and the fixed zone offset.
pub open spec fn spec_time_string(t: int) -> Seq<u8> {
    dec_int(t) + seq![SP] + lit_offset()
}

/// The optional parent line of a commit object; `parent` is the textual form
/// of the parent identifier.
pub open spec fn spec_parent_part(parent: Option<Seq<u8>>) -> Seq<u8> {
    match parent {
        Option::None => Seq::<u8>::empty(),
        Option::Some(p) => lit_parent() + p + seq![NL],
    }
}

/// The canonical byte encoding of a commit object: the tree line, the
/// optional parent line, identical author and committer lines carrying the
/// rendered timestamp, a blank line, and the message.
pub open spec fn spec_commit_blob(
    tree: Seq<u8>,
    parent: Option<Seq<u8>>,
    author: Seq<u8>,
    message: Seq<u8>,
    t: int,
) -> Seq<u8> {
    lit_tree() + tree + seq![NL] + spec_parent_part(parent) + lit_author() + author + seq![SP]
        + spec_time_string(t) + seq![NL] + lit_committer() + author + seq![SP] + spec_time_string(t)
        + seq![NL] + seq![NL] + message
}

/// The store-canonical header-prefixed form of an object: the object kind, a
/// space, the decimal byte length of the object, a NUL byte, and the object
/// bytes themselves.
pub open spec fn spec_header(blob: Seq<u8>) -> Seq<u8> {
    lit_commit_kind() + dec_rep(blob.len()) + seq![0u8] + blob
}

/// Appends a copy of `s` to `out`.
pub(crate) fn push_bytes(out: &mut Vec<u8>, s: &[u8])
    ensures
        final(out)@ == old(out)@ + s@,
{
    let mut tmp = slice_to_vec(s);
    out.append(&mut tmp);
}

/// Appends the decimal digits of `n` to `out`.
fn push_dec_u64(out: &mut Vec<u8>, n: u64)
    ensures
        final(out)@ == old(out)@ + dec_rep(n as nat),
    decreases n,
{
    if n >= 10 {
        push_dec_u64(out, n / 10);
    }
    out.push(48 + (n % 10) as u8);
    proof {
        assert(out@ =~= old(out)@ + dec_rep(n as nat));
    }
}

/// Appends the decimal rendering of `t`, sign included, to `out`.
fn push_dec_i64(out: &mut Vec<u8>, t: i64)
    ensures
        final(out)@ == old(out)@ + dec_int(t as int),
{
    if t < 0 {
        out.push(45);
        let mag: u64 = (-(t as i128)) as u64;
        push_dec_u64(out, mag);
        proof {
            assert(out@ =~= old(out)@ + dec_int(t as int));
        }
    } else {
        push_dec_u64(out, t as u64);
    }
}

/// Appends the rendered timestamp to `out`.
fn push_time_string(out: &mut Vec<u8>, t: i64)
    ensures
        final(out)@ == old(out)@ + spec_time_string(t as int),
{
    push_dec_i64(out, t);
    out.push(SP);
    out.push(45);
    out.push(48);
    out.push(48);
    out.push(48);
    out.push(48);
    proof {
        assert(out@ =~= old(out)@ + spec_time_string(t as int));
    }
}

/// Renders a commit timestamp as the store expects it on the author and
/// committer lines: seconds since the epoch and the fixed zone offset.
pub fn time_string(t: i64) -> (r: Result<Vec<u8>, WriterErrors>)
    ensures
        r matches Ok(v) && v@ == spec_time_string(t as int),
{
    let mut out: Vec<u8> = Vec::new();
    push_time_string(&mut out, t);
    Ok(out)
}

/// Appends the author or committer line, tagged with the given prefix, to
/// `out`.
fn push_identity_line(out: &mut Vec<u8>, author: &[u8], t: i64)
    ensures
        final(out)@ == old(out)@ + author@ + seq![SP] + spec_time_string(t as int) + seq![NL],
{
    push_bytes(out, author);
    out.push(SP);
    push_time_string(out, t);
    out.push(NL);
    proof {
        assert(out@ =~= old(out)@ + author@ + seq![SP] + spec_time_string(t as int) + seq![NL]);
    }
}

/// Renders the canonical byte encoding of a commit object from its logical
/// fields; `parent`, when given, is the textual form of the parent
/// identifier. Identical inputs always yield byte-identical output.
pub fn generate_blob(
    tree: &[u8],
    parent: Option<&[u8]>,
    author: &[u8],
    message: &[u8],
    t: i64,
) -> (r: Result<Vec<u8>, WriterErrors>)
    ensures
        r matches Ok(v) && v@ == spec_commit_blob(
            tree@,
            match parent {
                Option::None => Option::None,
                Option::Some(p) => Option::Some(p@),
            },
            author@,
            message@,
            t as int,
        ),
{
    let mut out: Vec<u8> = Vec::new();
    out.push(116);
    out.push(114);
    out.push(101);
    out.push(101);
    out.push(SP);
    proof {
        assert(out@ =~= lit_tree());
    }
    push_bytes(&mut out, tree);
    out.push(NL);
    match parent {
        Option::None => {
            proof {
                assert(out@ =~= lit_tree() + tree@ + seq![NL] + spec_parent_part(
                    Option::None,
                ));
            }
        },
        Option::Some(p) => {
            out.push(112);
            out.push(97);
            out.push(114);
            out.push(101);
            out.push(110);
            out.push(116);
            out.push(SP);
            push_bytes(&mut out, p);
            out.push(NL);
            proof {
                assert(out@ =~= lit_tree() + tree@ + seq![NL] + spec_parent_part(
                    Option::Some(p@),
                ));
            }
        },
    }
    let ghost head = out@;
    out.push(97);
    out.push(117);
    out.push(116);
    out.push(104);
    out.push(111);
    out.push(114);
    out.push(SP);
    proof {
        assert(out@ =~= head + lit_author());
    }
    push_identity_line(&mut out, author, t);
    let ghost mid = out@;
    out.push(99);
    out.push(111);
    out.push(109);
    out.push(109);
    out.push(105);
    out.push(116);
    out.push(116);
    out.push(101);
    out.push(114);
    out.push(SP);
    proof {
        assert(out@ =~= mid + lit_committer());
    }
    push_identity_line(&mut out, author, t);
    out.push(NL);
    push_bytes(&mut out, message);
    proof {
        assert(out@ =~= spec_commit_blob(
            tree@,
            match parent {
                Option::None => Option::None,
                Option::Some(p) => Option::Some(p@),
            },
            author@,
            message@,
            t as int,
        ));
    }
    Ok(out)
}

/// Renders the first commit object of a chain, which has no parent.
pub fn generate_initial_blob(tree: &[u8], author: &[u8], message: &[u8], t: i64) -> (r: Result<
    Vec<u8>,
    WriterErrors,
>)
    ensures
        r matches Ok(v) && v@ == spec_commit_blob(
            tree@,
            Option::None,
            author@,
            message@,
            t as int,
        ),
{
    generate_blob(tree, Option::None, author, message, t)
}

/// Renders a commit object chained to the parent with the given textual
/// identifier.
pub fn generate_non_initial_blob(
    tree: &[u8],
    parent: &[u8],
    author: &[u8],
    message: &[u8],
    t: i64,
) -> (r: Result<Vec<u8>, WriterErrors>)
    ensures
        r matches Ok(v) && v@ == spec_commit_blob(
            tree@,
            Option::Some(parent@),
            author@,
            message@,
            t as int,
        ),
{
    generate_blob(tree, Option::Some(parent), author, message, t)
}

/// Prepends the store-canonical header to the blob: the object kind, the
/// blob's decimal byte length, and a NUL byte. The header must be in place
/// before the blob is hashed, or the resulting identifier is not the one the
/// store itself would assign.
pub fn prepend_header_to_blob(blob: &[u8]) -> (r: Vec<u8>)
    ensures
        r@ == spec_header(blob@),
{
    let mut out: Vec<u8> = Vec::new();
    out.push(99);
    out.push(111);
    out.push(109);
    out.push(109);
    out.push(105);
    out.push(116);
    out.push(SP);
    proof {
        assert(out@ =~= lit_commit_kind());
    }
    push_dec_u64(&mut out, blob.len() as u64);
    out.push(0);
    push_bytes(&mut out, blob);
    proof {
        assert(out@ =~= spec_header(blob@));
    }
    out
}

/// Object encoding is a function of the commit's logical fields alone:
/// rendering the same fields twice yields byte-identical output.
pub proof fn lemma_blob_encoding_deterministic(
    tree: Seq<u8>,
    parent: Option<Seq<u8>>,
    author: Seq<u8>,
    message: Seq<u8>,
    t: int,
    tree2: Seq<u8>,
    parent2: Option<Seq<u8>>,
    author2: Seq<u8>,
    message2: Seq<u8>,
    t2: int,
)
    requires
        tree == tree2,
        parent == parent2,
        author == author2,
        message == message2,
        t == t2,
    ensures
        spec_commit_blob(tree, parent, author, message, t) == spec_commit_blob(
            tree2,
            parent2,
            author2,
            message2,
            t2,
        ),
{
}

} // verus!

