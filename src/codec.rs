//! How a proposal is written into a tag name and a tag message, and read
//! back out of them.
use vstd::prelude::*;
use crate::types::{DecodeError, Patch, PatchModel, PeerIdentity, TagRef};

verus! {

/// The prefix that marks a tag as a proposal.
pub open spec fn tag_prefix() -> Seq<char> {
    "patches/"@
}

pub open spec fn has_prefix(s: Seq<char>, p: Seq<char>) -> bool {
    p.len() <= s.len() && s.subrange(0, p.len() as int) == p
}

/// The tag name of a proposal made from branch `source`.
pub open spec fn tag_name_of(source: Seq<char>) -> Seq<char> {
    tag_prefix() + source
}

/// The tag message of a proposal: the title, a newline, the description.
pub open spec fn message_of(title: Seq<char>, description: Seq<char>) -> Seq<char> {
    title + seq!['\n'] + description
}

/// Where the first line of `m` ends: the index of its first newline, or
/// its length if it has none.
pub open spec fn line_end(m: Seq<char>) -> nat
    decreases m.len(),
{
    if m.len() == 0 {
        0
    } else if m[0] == '\n' {
        0
    } else {
        1 + line_end(m.drop_first())
    }
}

/// The first line of a message: the proposal's title.
pub open spec fn first_line(m: Seq<char>) -> Seq<char> {
    m.subrange(0, line_end(m) as int)
}

/// What follows the first newline of a message: the proposal's description.
pub open spec fn after_first_line(m: Seq<char>) -> Seq<char> {
    if line_end(m) < m.len() {
        m.subrange(line_end(m) as int + 1, m.len() as int)
    } else {
        Seq::empty()
    }
}

/// Whether a tag can be read as a proposal: its name carries the prefix and
/// it has a message of at least one line.
pub open spec fn is_patch_tag(tag: TagRef) -> bool {
    has_prefix(tag.name@, tag_prefix()) && tag.message is Some && tag.message->0@.len() > 0
}

/// The proposal that `tag`, found under `peer`'s namespace, stands for.
pub open spec fn decode_model(tag: TagRef, peer: PeerIdentity) -> Option<PatchModel> {
    if is_patch_tag(tag) {
        let m = tag.message->0@;
        Some(
            PatchModel {
                id: tag.id@,
                peer_id: peer.id@,
                peer_name: peer.name@,
                title: first_line(m),
                description: after_first_line(m),
                target_commit: tag.target@,
                source_ref_name: tag.name@.skip(tag_prefix().len() as int),
            },
        )
    } else {
        None
    }
}

proof fn lemma_line_end(m: Seq<char>, k: int)
    requires
        0 <= k <= m.len(),
        forall|j: int| 0 <= j < k ==> m[j] != '\n',
        k == m.len() || m[k] == '\n',
    ensures
        line_end(m) == k,
    decreases k,
{
    if k > 0 {
        lemma_line_end(m.drop_first(), k - 1);
    }
}

/// The index at which the first line of `m` ends.
pub fn first_line_end(m: &str) -> (r: usize)
    ensures
        r == line_end(m@),
        r <= m@.len(),
{
    let n = m.unicode_len();
    let mut i: usize = 0;
    while i < n
        invariant
            n == m@.len(),
            i <= n,
            forall|j: int| 0 <= j < i ==> m@[j] != '\n',
        decreases n - i,
    {
        if m.get_char(i) == '\n' {
            proof {
                lemma_line_end(m@, i as int);
            }
            return i;
        }
        i = i + 1;
    }
    proof {
        lemma_line_end(m@, i as int);
    }
    i
}

/// Whether `name` starts with the proposal prefix.
pub fn is_patch_tag_name(name: &str) -> (r: bool)
    ensures
        r == has_prefix(name@, tag_prefix()),
{
    proof {
        reveal_strlit("patches/");
    }
    let n = name.unicode_len();
    if n < 8 {
        return false;
    }
    let head = String::from_str(name.substring_char(0, 8));
    let prefix = String::from_str("patches/");
    head == prefix
}

/// The tag name and the tag message that encode a proposal from branch
/// `source_ref_name` with the given title and description.
pub fn encode(source_ref_name: &str, title: &str, description: &str) -> (r: (String, String))
    ensures
        r.0@ == tag_name_of(source_ref_name@),
        r.1@ == message_of(title@, description@),
{
    let name = String::from_str("patches/").concat(source_ref_name);
    let message = String::from_str(title).concat("\n").concat(description);
    proof {
        reveal_strlit("\n");
        assert(message@ =~= message_of(title@, description@));
    }
    (name, message)
}

/// Reads `tag`, found under `peer`'s namespace, as a proposal.
pub fn decode(tag: &TagRef, peer: &PeerIdentity) -> (r: Result<Patch, DecodeError>)
    ensures
        r is Ok <==> is_patch_tag(*tag),
        r is Ok ==> decode_model(*tag, *peer) == Some(r->Ok_0@),
        r is Err ==> r == Err::<Patch, DecodeError>(DecodeError::MalformedTag),
        !has_prefix(tag.name@, tag_prefix()) ==> r == Err::<Patch, DecodeError>(
            DecodeError::MalformedTag,
        ),
{
    proof {
        reveal_strlit("patches/");
    }
    if !is_patch_tag_name(tag.name.as_str()) {
        return Err(DecodeError::MalformedTag);
    }
    let message = match &tag.message {
        Some(m) => m.as_str(),
        None => {
            return Err(DecodeError::MalformedTag);
        },
    };
    let n = message.unicode_len();
    if n == 0 {
        return Err(DecodeError::MalformedTag);
    }
    let end = first_line_end(message);
    let title = String::from_str(message.substring_char(0, end));
    let description = if end < n {
        String::from_str(message.substring_char(end + 1, n))
    } else {
        String::new()
    };
    let name_len = tag.name.as_str().unicode_len();
    let source = String::from_str(tag.name.as_str().substring_char(8, name_len));
    let patch = Patch {
        id: tag.id.clone(),
        peer: peer.duplicate(),
        title,
        description,
        target_commit: tag.target.clone(),
        source_ref_name: source,
    };
    proof {
        assert(description@ =~= after_first_line(tag.message->0@));
        assert(source@ =~= tag.name@.skip(tag_prefix().len() as int));
    }
    Ok(patch)
}

/// Decoding the tag that `encode` describes gives back the branch, the
/// title and the description it was made from, for every title that holds
/// no newline.
pub proof fn lemma_round_trip(
    tag: TagRef,
    peer: PeerIdentity,
    source_ref_name: Seq<char>,
    title: Seq<char>,
    description: Seq<char>,
)
    requires
        !title.contains('\n'),
        tag.name@ == tag_name_of(source_ref_name),
        tag.message is Some,
        tag.message->0@ == message_of(title, description),
    ensures
        decode_model(tag, peer) is Some,
        decode_model(tag, peer)->0.source_ref_name == source_ref_name,
        decode_model(tag, peer)->0.title == title,
        decode_model(tag, peer)->0.description == description,
        decode_model(tag, peer)->0.target_commit == tag.target@,
        decode_model(tag, peer)->0.peer_id == peer.id@,
{
    let m = message_of(title, description);
    assert forall|j: int| 0 <= j < title.len() implies m[j] != '\n' by {
        assert(m[j] == title[j]);
    }
    assert(m[title.len() as int] == '\n');
    lemma_line_end(m, title.len() as int);
    assert(tag.name@.subrange(0, tag_prefix().len() as int) =~= tag_prefix());
    assert(tag.name@.skip(tag_prefix().len() as int) =~= source_ref_name);
    assert(first_line(m) =~= title);
    assert(after_first_line(m) =~= description);
}

} // verus!
