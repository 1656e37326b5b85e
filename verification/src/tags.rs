use vstd::prelude::*;
use crate::attachments::char_is_whitespace;
use crate::attachments::ws_of;
use crate::text::chars_eq;
use crate::text::chars_to_string;
use crate::text::copy_range;
use crate::text::to_chars;

verus! {

/// Whether a character ends a tag name: a name runs over characters that
/// are neither whitespace nor `@`.
pub open spec fn spec_stops_token(c: char) -> bool {
    ws_of(c) || c == '@'
}

/// Where the tag name starting at `i` ends: the first position at or after
/// `i` that is past the end or holds a stopping character.
pub open spec fn spec_token_end(s: Seq<char>, i: int) -> int
    decreases s.len() - i,
{
    if i < 0 || i >= s.len() {
        s.len() as int
    } else if spec_stops_token(s[i]) {
        i
    } else {
        spec_token_end(s, i + 1)
    }
}

proof fn lemma_token_end_bounds(s: Seq<char>, i: int)
    requires
        0 <= i <= s.len(),
    ensures
        i <= spec_token_end(s, i) <= s.len(),
    decreases s.len() - i,
{
    if i < s.len() && !spec_stops_token(s[i]) {
        lemma_token_end_bounds(s, i + 1);
    }
}

proof fn lemma_token_end_at(s: Seq<char>, a: int, j: int)
    requires
        0 <= a <= j <= s.len(),
        forall|k: int| a <= k < j ==> !spec_stops_token(s[k]),
        j == s.len() || spec_stops_token(s[j]),
    ensures
        spec_token_end(s, a) == j,
    decreases j - a,
{
    if a < j {
        lemma_token_end_at(s, a + 1, j);
    }
}

/// The content stored for a tag name; when a name is stored twice, the
/// later entry wins.
pub open spec fn spec_lookup_tag(tags: Seq<(String, String)>, name: Seq<char>) -> Option<Seq<char>>
    decreases tags.len(),
{
    if tags.len() == 0 {
        None
    } else if tags.last().0@ == name {
        Some(tags.last().1@)
    } else {
        spec_lookup_tag(tags.drop_last(), name)
    }
}

/// Looks a tag name up among the stored tags; the latest entry for a name
/// wins.
fn lookup_tag(tags: &Vec<(String, String)>, name: &Vec<char>) -> (r: Option<String>)
    ensures
        match r {
            Some(c) => spec_lookup_tag(tags@, name@) == Some(c@),
            None => spec_lookup_tag(tags@, name@) is None,
        },
{
    let mut i = tags.len();
    proof {
        assert(tags@.subrange(0, tags@.len() as int) =~= tags@);
    }
    while i > 0
        invariant
            i <= tags@.len(),
            spec_lookup_tag(tags@, name@) == spec_lookup_tag(
                tags@.subrange(0, i as int),
                name@,
            ),
        decreases i,
    {
        i -= 1;
        let key = to_chars(tags[i].0.as_str());
        proof {
            let cur = tags@.subrange(0, i + 1);
            assert(cur.last() == tags@[i as int]);
            assert(cur.drop_last() =~= tags@.subrange(0, i as int));
        }
        if chars_eq(&key, name) {
            return Some(tags[i].1.clone());
        }
    }
    proof {
        assert(tags@.subrange(0, 0) =~= Seq::<(String, String)>::empty());
    }
    None
}

/// The text with every tag reference expanded: an `@` followed by at least
/// one name character is replaced by the stored content of that name, or
/// kept as written when the name is unknown; everything else passes
/// through unchanged.
pub open spec fn spec_expand_from(s: Seq<char>, i: int, tags: Seq<(String, String)>) -> Seq<char>
    decreases s.len() - i,
{
    if i < 0 || i >= s.len() {
        Seq::<char>::empty()
    } else {
        let e0 = spec_token_end(s, i + 1);
        let e = if i + 1 <= e0 <= s.len() {
            e0
        } else {
            i + 1
        };
        if s[i] == '@' && e > i + 1 {
            (match spec_lookup_tag(tags, s.subrange(i + 1, e)) {
                Some(c) => c,
                None => s.subrange(i, e),
            }) + spec_expand_from(s, e, tags)
        } else {
            seq![s[i]] + spec_expand_from(s, i + 1, tags)
        }
    }
}

/// Whether the text holds at least one tag reference.
pub open spec fn spec_has_tag(s: Seq<char>, i: int) -> bool
    decreases s.len() - i,
{
    if i < 0 || i >= s.len() {
        false
    } else {
        let e0 = spec_token_end(s, i + 1);
        let e = if i + 1 <= e0 <= s.len() {
            e0
        } else {
            i + 1
        };
        if s[i] == '@' && e > i + 1 {
            true
        } else {
            spec_has_tag(s, i + 1)
        }
    }
}

fn stops_token(c: char) -> (r: bool)
    ensures
        r == spec_stops_token(c),
{
    char_is_whitespace(c) || c == '@'
}

/// Scans for the end of the tag name starting at `from`.
fn token_end(chars: &Vec<char>, from: usize) -> (r: usize)
    requires
        from <= chars@.len(),
    ensures
        from <= r <= chars@.len(),
        r == spec_token_end(chars@, from as int),
{
    let n = chars.len();
    let mut j = from;
    while j < n && !stops_token(chars[j])
        invariant
            from <= j <= n,
            n == chars@.len(),
            forall|k: int| from <= k < j ==> !spec_stops_token(chars@[k]),
        decreases n - j,
    {
        j += 1;
    }
    proof {
        lemma_token_end_at(chars@, from as int, j as int);
    }
    j
}

/// Whether the text references any tag, which decides whether the stored
/// tags are worth fetching at all.
pub fn has_tag_reference(text: &str) -> (r: bool)
    ensures
        r == spec_has_tag(text@, 0),
{
    let chars = to_chars(text);
    let n = chars.len();
    let mut i: usize = 0;
    while i < n
        invariant
            n == chars@.len(),
            chars@ == text@,
            i <= n,
            spec_has_tag(text@, 0) == spec_has_tag(text@, i as int),
        decreases n - i,
    {
        proof {
            lemma_token_end_bounds(text@, i + 1);
        }
        if chars[i] == '@' {
            let e = token_end(&chars, i + 1);
            if e > i + 1 {
                return true;
            }
        }
        i += 1;
    }
    false
}

/// Expands every `@name` reference in the text from the stored tags:
/// a known name is replaced by its content, an unknown one is left as
/// written, and a lone `@` is kept.
pub fn expand_tags(text: &str, tags: &Vec<(String, String)>) -> (r: String)
    ensures
        r@ == spec_expand_from(text@, 0, tags@),
{
    let chars = to_chars(text);
    let n = chars.len();
    let mut out: Vec<char> = Vec::new();
    let mut i: usize = 0;
    while i < n
        invariant
            n == chars@.len(),
            chars@ == text@,
            i <= n,
            spec_expand_from(text@, 0, tags@) == out@ + spec_expand_from(
                text@,
                i as int,
                tags@,
            ),
        decreases n - i,
    {
        let ghost i0 = i as int;
        let ghost out0 = out@;
        proof {
            lemma_token_end_bounds(text@, i + 1);
        }
        if chars[i] == '@' {
            let e = token_end(&chars, i + 1);
            if e > i + 1 {
                let name = copy_range(&chars, i + 1, e);
                match lookup_tag(tags, &name) {
                    Some(content) => {
                        let mut content_chars = to_chars(content.as_str());
                        proof {
                            assert(spec_expand_from(text@, i0, tags@) =~= content_chars@
                                + spec_expand_from(text@, e as int, tags@));
                        }
                        out.append(&mut content_chars);
                    },
                    None => {
                        let mut kept = copy_range(&chars, i, e);
                        proof {
                            assert(spec_expand_from(text@, i0, tags@) =~= kept@
                                + spec_expand_from(text@, e as int, tags@));
                        }
                        out.append(&mut kept);
                    },
                }
                i = e;
                proof {
                    assert(out0 + spec_expand_from(text@, i0, tags@) =~= out@
                        + spec_expand_from(text@, i as int, tags@));
                }
            } else {
                out.push(chars[i]);
                i += 1;
                proof {
                    assert(spec_expand_from(text@, i0, tags@) =~= seq![text@[i0]]
                        + spec_expand_from(text@, i as int, tags@));
                    assert(out0 + spec_expand_from(text@, i0, tags@) =~= out@
                        + spec_expand_from(text@, i as int, tags@));
                }
            }
        } else {
            out.push(chars[i]);
            i += 1;
            proof {
                assert(spec_expand_from(text@, i0, tags@) =~= seq![text@[i0]]
                    + spec_expand_from(text@, i as int, tags@));
                assert(out0 + spec_expand_from(text@, i0, tags@) =~= out@
                    + spec_expand_from(text@, i as int, tags@));
            }
        }
    }
    proof {
        assert(out@ + spec_expand_from(text@, n as int, tags@) =~= out@);
    }
    chars_to_string(&out)
}

} // verus!
