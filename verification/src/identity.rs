use std::collections::hash_map::DefaultHasher;
use std::hash::Hasher;
use vstd::bytes::*;
use vstd::prelude::*;
use vstd::std_specs::hash::*;
use vstd::string::*;

verus! {

/// The byte that closes a resource name in the hashed stream, so that a name
/// never runs into the attachment index that follows it.
pub const NAME_TERMINATOR: u8 = 0xff;

/// The three writes that make up the hashed stream of a resource name and an
/// attachment index: the UTF-8 bytes of the name, the terminator, and the index
/// as eight little-endian bytes.
pub open spec fn identity_stream(name: Seq<char>, attachment: usize) -> Seq<Seq<u8>> {
    seq![
        vstd::utf8::encode_utf8(name),
        seq![NAME_TERMINATOR],
        spec_u64_to_le_bytes(attachment as u64),
    ]
}

/// The identity key of a resource name and an attachment index: the digest of
/// the default hasher over `identity_stream`.
pub open spec fn identity(name: Seq<char>, attachment: usize) -> u64 {
    DefaultHasher::spec_finish(identity_stream(name, attachment))
}

/// Hashes a resource name together with an attachment index into the 64-bit key
/// under which the resource table knows the pair. The key depends on nothing but
/// the two arguments.
pub fn hash_name_attachment(name: &str, attachment: usize) -> (key: u64)
    ensures
        key == identity(name@, attachment),
{
    let mut s = DefaultHasher::new();
    s.write(name.as_bytes());
    let terminator: [u8; 1] = [NAME_TERMINATOR];
    assert(terminator@ =~= seq![NAME_TERMINATOR]);
    s.write(terminator.as_slice());
    let index = u64_to_le_bytes(attachment as u64);
    s.write(index.as_slice());
    assert(s@ =~= identity_stream(name@, attachment));
    s.finish()
}


/// The most colour attachments that a buffer can have such that the attachment
/// indices of both its copies are machine words.
pub const MAX_ATTACHMENTS: usize = (usize::MAX - 1) / 2;

/// The attachment index of colour attachment `i` of copy `copy` of a buffer
/// with `attachments` colour attachments. Each copy takes `attachments + 1`
/// indices in a row: its colour attachments, then its depth attachment.
pub open spec fn color_index(attachments: usize, copy: usize, i: usize) -> int {
    i + copy * (attachments + 1)
}

/// The attachment index of the depth attachment of copy `copy`.
pub open spec fn depth_index(attachments: usize, copy: usize) -> int {
    attachments + copy * (attachments + 1)
}

pub fn color_attachment_index(attachments: usize, copy: usize, i: usize) -> (index: usize)
    requires
        attachments <= MAX_ATTACHMENTS,
        copy <= 1,
        i < attachments,
    ensures
        index == color_index(attachments, copy, i),
{
    if copy == 0 {
        i
    } else {
        i + (attachments + 1)
    }
}

pub fn depth_attachment_index(attachments: usize, copy: usize) -> (index: usize)
    requires
        attachments <= MAX_ATTACHMENTS,
        copy <= 1,
    ensures
        index == depth_index(attachments, copy),
{
    if copy == 0 {
        attachments
    } else {
        attachments + (attachments + 1)
    }
}

/// The indices of the two copies of a buffer never meet: every index belongs
/// to one copy, and in it to one attachment.
pub proof fn lemma_attachment_indices_distinct(
    attachments: usize,
    copy_a: usize,
    a: usize,
    copy_b: usize,
    b: usize,
)
    requires
        copy_a <= 1,
        copy_b <= 1,
        a <= attachments,
        b <= attachments,
        a + copy_a * (attachments + 1) == b + copy_b * (attachments + 1),
    ensures
        copy_a == copy_b,
        a == b,
{
    assert(0 * (attachments + 1) == 0);
    assert(1 * (attachments + 1) == attachments + 1);
}

} // verus!
