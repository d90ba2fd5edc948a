use crate::response::{not_found, response_view, Failure, FailureView};
use vstd::prelude::*;

verus! {

/// A character that may stand in a tag: a decimal digit, a lowercase
/// hexadecimal letter from `a` to `f`, or a hyphen. Tags are thus commit
/// hashes and names made of them; uppercase letters, dots, underscores and
/// every character outside ASCII are refused.
pub open spec fn allowed_char(c: char) -> bool {
    ('0' <= c && c <= '9') || ('a' <= c && c <= 'f') || c == '-'
}

/// Every character of `s` may stand in a tag.
pub open spec fn allowed_chars(s: Seq<char>) -> bool {
    forall|i: int| 0 <= i < s.len() ==> allowed_char(#[trigger] s[i])
}

/// What stands in `host` before its first dot; nothing where `host` has no
/// dot.
pub open spec fn leading_label(host: Seq<char>) -> Option<Seq<char>> {
    match host.index_of_first('.') {
        Some(dot) => Some(host.take(dot)),
        None => None,
    }
}

/// The subdomain of `host`, or the failure that answers a host without one.
pub open spec fn subdomain_outcome(host: Seq<char>) -> Result<Seq<char>, FailureView> {
    match leading_label(host) {
        Some(label) => Ok(label),
        None => Err(not_found("couldn't find subdomain"@)),
    }
}

/// The tag that `host` selects: its leading label, where `host` has a dot
/// and the label is not empty and made of allowed characters only.
pub open spec fn tag_of(host: Seq<char>) -> Option<Seq<char>> {
    match leading_label(host) {
        Some(label) => if label.len() > 0 && allowed_chars(label) {
            Some(label)
        } else {
            None
        },
        None => None,
    }
}

/// `dot` is where the first dot of `host` stands.
pub open spec fn is_first_dot(host: Seq<char>, dot: int) -> bool {
    &&& 0 <= dot < host.len()
    &&& host[dot] == '.'
    &&& forall|j: int| 0 <= j < dot ==> host[j] != '.'
}

/// The leading label ends at the first dot, and a host has one exactly when
/// it has a dot.
pub proof fn lemma_leading_label(host: Seq<char>)
    ensures
        leading_label(host) is Some <==> host.contains('.'),
        forall|dot: int| is_first_dot(host, dot) ==> leading_label(host) == Some(host.take(dot)),
{
    host.index_of_first_ensures('.');
    assert forall|dot: int| is_first_dot(host, dot) implies leading_label(host) == Some(
        host.take(dot),
    ) by {
        assert(host.contains('.'));
        let first = host.index_of_first('.').unwrap();
        if first < dot {
            assert(host[first] != '.');
        }
        if dot < first {
            assert(host[dot] != '.');
        }
    }
}

/// Tells whether every character of `host` may stand in a tag.
pub fn is_allowed_characters(host: String) -> (allowed: bool)
    ensures
        allowed == allowed_chars(host@),
{
    let mut allowed = true;
    for c in it: host.as_str().chars()
        invariant
            it.seq() == host@,
            allowed == allowed_chars(host@.take(it.index() as int)),
    {
        proof {
            let i = it.index() as int;
            let before = host@.take(i);
            let after = host@.take(i + 1);
            assert(after =~= before.push(c));
            if allowed_chars(before) && allowed_char(c) {
                assert forall|j: int| 0 <= j < after.len() implies allowed_char(
                    #[trigger] after[j],
                ) by {
                    if j < i {
                        assert(after[j] == before[j]);
                    }
                }
            }
            if allowed_chars(after) {
                assert(allowed_char(after[i]));
                assert forall|j: int| 0 <= j < before.len() implies allowed_char(
                    #[trigger] before[j],
                ) by {
                    assert(before[j] == after[j]);
                }
            }
        }
        allowed = allowed && (('0' <= c && c <= '9') || ('a' <= c && c <= 'f') || c == '-');
    }
    proof {
        assert(host@.take(host@.len() as int) =~= host@);
    }
    allowed
}

/// Takes the subdomain out of `host`: what stands before its first dot. A
/// host without a dot has none.
pub fn get_subdomain(host: String) -> (subdomain: Result<String, Failure>)
    ensures
        response_view(subdomain) == subdomain_outcome(host@),
{
    let length = host.as_str().unicode_len();
    let mut dot: Option<usize> = None;
    let mut seen: usize = 0;
    for c in it: host.as_str().chars()
        invariant
            it.seq() == host@,
            length == host@.len(),
            seen == it.index(),
            seen <= length,
            match dot {
                Some(d) => d < seen && is_first_dot(host@, d as int),
                None => forall|j: int| 0 <= j < seen ==> host@[j] != '.',
            },
    {
        if dot.is_none() && c == '.' {
            dot = Some(seen);
        }
        seen = seen + 1;
    }
    proof {
        lemma_leading_label(host@);
    }
    match dot {
        Some(d) => Ok(host.as_str().substring_char(0, d).to_owned()),
        None => Err(Failure::not_found("couldn't find subdomain")),
    }
}

} // verus!
