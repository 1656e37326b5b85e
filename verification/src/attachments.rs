use vstd::prelude::*;
use crate::text::chars_to_string;
use crate::text::lower_of;
use crate::text::lowercase;
use crate::text::str_eq;
use crate::text::to_chars;

verus! {

/// The Unicode White_Space property, as an opaque function of the
/// character alone.
pub uninterp spec fn ws_of(c: char) -> bool;

/// Relies on `char::is_whitespace`: the White_Space property depends on
/// the character alone.
#[verifier::external_body]
pub(crate) fn char_is_whitespace(c: char) -> (r: bool)
    ensures
        r == ws_of(c),
{
    c.is_whitespace()
}

/// The Unicode alphanumeric property, as an opaque function of the
/// character alone.
pub uninterp spec fn alnum_of(c: char) -> bool;

/// Relies on `char::is_alphanumeric`: the alphanumeric property depends on
/// the character alone.
#[verifier::external_body]
fn char_is_alphanumeric(c: char) -> (r: bool)
    ensures
        r == alnum_of(c),
{
    c.is_alphanumeric()
}

/// The file name after the last slash.
pub open spec fn spec_base_name(s: Seq<char>) -> Seq<char>
    decreases s.len(),
{
    if s.len() == 0 {
        s
    } else if s.last() == '/' {
        Seq::<char>::empty()
    } else {
        spec_base_name(s.drop_last()).push(s.last())
    }
}

/// The position of the last dot that can split a base name into stem and
/// extension: the last dot at index one or later, or none.
pub open spec fn spec_last_dot(b: Seq<char>) -> int
    decreases b.len(),
{
    if b.len() <= 1 {
        -1
    } else if b.last() == '.' {
        b.len() - 1
    } else {
        spec_last_dot(b.drop_last())
    }
}

/// The stem of a base name: what stands before the last splitting dot, or
/// the whole name when no dot splits it.
pub open spec fn spec_stem(b: Seq<char>) -> Seq<char> {
    let p = spec_last_dot(b);
    if p < 0 {
        b
    } else {
        b.subrange(0, p)
    }
}

/// The extension of a base name: what stands after the last splitting dot,
/// or nothing when no dot splits it.
pub open spec fn spec_extension(b: Seq<char>) -> Seq<char> {
    let p = spec_last_dot(b);
    if p < 0 {
        Seq::<char>::empty()
    } else {
        b.subrange(p + 1, b.len() as int)
    }
}

proof fn lemma_base_name_at(s: Seq<char>, k: int)
    requires
        0 <= k < s.len(),
        s[k] == '/',
        forall|j: int| k < j < s.len() ==> s[j] != '/',
    ensures
        spec_base_name(s) == s.subrange(k + 1, s.len() as int),
    decreases s.len(),
{
    if k == s.len() - 1 {
        assert(s.subrange(k + 1, s.len() as int) =~= Seq::<char>::empty());
    } else {
        lemma_base_name_at(s.drop_last(), k);
        assert(spec_base_name(s.drop_last()) == s.drop_last().subrange(
            k + 1,
            s.len() - 1,
        ));
        assert(s.drop_last().subrange(k + 1, s.len() - 1) =~= s.subrange(k + 1, s.len() - 1));
        assert(s.subrange(k + 1, s.len() - 1).push(s.last()) =~= s.subrange(k + 1, s.len() as int));
    }
}

proof fn lemma_base_name_whole(s: Seq<char>)
    requires
        forall|j: int| 0 <= j < s.len() ==> s[j] != '/',
    ensures
        spec_base_name(s) == s,
    decreases s.len(),
{
    if s.len() > 0 {
        lemma_base_name_whole(s.drop_last());
        assert(s.drop_last().push(s.last()) =~= s);
    }
}

proof fn lemma_last_dot_at(b: Seq<char>, p: int)
    requires
        1 <= p < b.len(),
        b[p] == '.',
        forall|j: int| p < j < b.len() ==> b[j] != '.',
    ensures
        spec_last_dot(b) == p,
    decreases b.len(),
{
    if p < b.len() - 1 {
        lemma_last_dot_at(b.drop_last(), p);
    }
}

proof fn lemma_last_dot_none(b: Seq<char>)
    requires
        forall|j: int| 1 <= j < b.len() ==> b[j] != '.',
    ensures
        spec_last_dot(b) == -1,
    decreases b.len(),
{
    if b.len() > 1 {
        lemma_last_dot_none(b.drop_last());
    }
}

/// The file name after the last slash, as characters.
fn base_name_chars(name: &str) -> (r: Vec<char>)
    ensures
        r@ == spec_base_name(name@),
{
    let chars = to_chars(name);
    let n = chars.len();
    let mut start: usize = 0;
    let mut i: usize = 0;
    while i < n
        invariant
            n == chars@.len(),
            chars@ == name@,
            i <= n,
            start <= i,
            start > 0 ==> chars@[start - 1] == '/',
            forall|j: int| start <= j < i ==> chars@[j] != '/',
        decreases n - i,
    {
        if chars[i] == '/' {
            start = i + 1;
        }
        i += 1;
    }
    proof {
        if start > 0 {
            lemma_base_name_at(name@, start - 1);
        } else {
            lemma_base_name_whole(name@);
        }
    }
    let mut out: Vec<char> = Vec::new();
    let mut k = start;
    while k < n
        invariant
            start <= k <= n,
            n == chars@.len(),
            chars@ == name@,
            out@ == name@.subrange(start as int, k as int),
        decreases n - k,
    {
        out.push(chars[k]);
        k += 1;
        proof {
            assert(out@ =~= name@.subrange(start as int, k as int));
        }
    }
    proof {
        assert(name@.subrange(start as int, n as int) =~= spec_base_name(name@));
    }
    out
}

/// The position after the last splitting dot, or zero when none splits.
fn split_point(b: &Vec<char>) -> (r: Option<usize>)
    ensures
        r matches Some(p) ==> (1 <= p < b@.len() && spec_last_dot(b@) == p),
        r is None ==> spec_last_dot(b@) == -1,
{
    let n = b.len();
    let mut dot: Option<usize> = None;
    let mut i: usize = 1;
    while i < n
        invariant
            n == b@.len(),
            1 <= i || n == 0,
            i <= n + 1,
            dot matches Some(p) ==> (1 <= p < i <= n && b@[p as int] == '.' && forall|j: int|
                p < j < i ==> b@[j] != '.'),
            dot is None ==> forall|j: int| 1 <= j < i ==> b@[j] != '.',
        decreases n - i,
    {
        if b[i] == '.' {
            dot = Some(i);
        }
        i += 1;
    }
    proof {
        match dot {
            Some(p) => lemma_last_dot_at(b@, p as int),
            None => lemma_last_dot_none(b@),
        }
    }
    dot
}

/// How one character of the lowercased stem comes through sanitizing:
/// whitespace turns into an underscore; after that, only alphanumerics,
/// underscores and hyphens survive.
pub open spec fn spec_clean(s: Seq<char>) -> Seq<char>
    decreases s.len(),
{
    if s.len() == 0 {
        Seq::<char>::empty()
    } else {
        let rest = spec_clean(s.drop_last());
        let c0 = s.last();
        let c = if ws_of(c0) {
            '_'
        } else {
            c0
        };
        if alnum_of(c) || c == '_' || c == '-' {
            rest.push(c)
        } else {
            rest
        }
    }
}

/// The sanitized name: the cleaned characters capped at fifty, and `file`
/// when nothing survives.
pub open spec fn spec_capped(clean: Seq<char>) -> Seq<char> {
    if clean.len() > 50 {
        clean.subrange(0, 50)
    } else if clean.len() == 0 {
        "file"@
    } else {
        clean
    }
}

/// Makes a file name safe for storage: the stem of its base name,
/// lowercased, whitespace turned to underscores, stripped to
/// alphanumerics, underscores and hyphens, capped at fifty characters;
/// a name with nothing left, or without a stem, becomes `file`.
pub fn sanitize_filename(name: &str) -> (r: String)
    ensures
        ({
            let stem = spec_stem(spec_base_name(name@));
            stem.len() > 0 ==> r@ == spec_capped(spec_clean(lower_of(stem)))
        }),
        ({
            let stem = spec_stem(spec_base_name(name@));
            stem.len() == 0 ==> r@ == spec_capped(spec_clean(lower_of("file"@)))
        }),
{
    let base = base_name_chars(name);
    let stem_chars = match split_point(&base) {
        Some(p) => {
            let mut s: Vec<char> = Vec::new();
            let mut i: usize = 0;
            while i < p
                invariant
                    p <= base@.len(),
                    i <= p,
                    s@ == base@.subrange(0, i as int),
                decreases p - i,
            {
                s.push(base[i]);
                i += 1;
                proof {
                    assert(s@ =~= base@.subrange(0, i as int));
                }
            }
            s
        },
        None => base,
    };
    let stem_str = chars_to_string(&stem_chars);
    let stem_used = if stem_str.as_str().is_empty() {
        "file".to_owned()
    } else {
        stem_str
    };
    let lowered = lowercase(stem_used.as_str());
    let lchars = to_chars(lowered.as_str());
    let n = lchars.len();
    let mut clean: Vec<char> = Vec::new();
    let mut i: usize = 0;
    while i < n
        invariant
            n == lchars@.len(),
            lchars@ == lowered@,
            i <= n,
            clean@ == spec_clean(lowered@.subrange(0, i as int)),
        decreases n - i,
    {
        let c0 = lchars[i];
        let c = if char_is_whitespace(c0) {
            '_'
        } else {
            c0
        };
        if char_is_alphanumeric(c) || c == '_' || c == '-' {
            clean.push(c);
        }
        i += 1;
        proof {
            let pre = lowered@.subrange(0, i - 1);
            let cur = lowered@.subrange(0, i as int);
            assert(cur.drop_last() =~= pre);
            assert(cur.last() == lowered@[i - 1]);
        }
    }
    proof {
        assert(lowered@.subrange(0, n as int) =~= lowered@);
    }
    if clean.len() > 50 {
        clean.truncate(50);
        proof {
            assert(clean@ =~= spec_capped(spec_clean(lowered@)));
        }
        chars_to_string(&clean)
    } else if clean.len() == 0 {
        "file".to_owned()
    } else {
        chars_to_string(&clean)
    }
}

/// The MIME type served for each recognized lowercased extension; anything
/// unrecognized is served as opaque bytes.
pub open spec fn spec_mime(ext: Seq<char>) -> Seq<char> {
    if ext == "png"@ {
        "image/png"@
    } else if ext == "jpg"@ || ext == "jpeg"@ {
        "image/jpeg"@
    } else if ext == "gif"@ {
        "image/gif"@
    } else if ext == "webp"@ {
        "image/webp"@
    } else if ext == "bmp"@ {
        "image/bmp"@
    } else if ext == "svg"@ {
        "image/svg+xml"@
    } else if ext == "pdf"@ {
        "application/pdf"@
    } else if ext == "txt"@ {
        "text/plain"@
    } else if ext == "md"@ {
        "text/markdown"@
    } else if ext == "json"@ {
        "application/json"@
    } else if ext == "xml"@ {
        "application/xml"@
    } else if ext == "html"@ || ext == "htm"@ {
        "text/html"@
    } else if ext == "css"@ {
        "text/css"@
    } else if ext == "js"@ {
        "application/javascript"@
    } else if ext == "ts"@ {
        "application/typescript"@
    } else if ext == "zip"@ {
        "application/zip"@
    } else if ext == "doc"@ {
        "application/msword"@
    } else if ext == "docx"@ {
        "application/vnd.openxmlformats-officedocument.wordprocessingml.document"@
    } else if ext == "xls"@ {
        "application/vnd.ms-excel"@
    } else if ext == "xlsx"@ {
        "application/vnd.openxmlformats-officedocument.spreadsheetml.sheet"@
    } else if ext == "ppt"@ {
        "application/vnd.ms-powerpoint"@
    } else if ext == "pptx"@ {
        "application/vnd.openxmlformats-officedocument.presentationml.presentation"@
    } else if ext == "csv"@ {
        "text/csv"@
    } else {
        "application/octet-stream"@
    }
}

/// Serves the MIME type for a file name, from its lowercased extension.
pub fn get_mime_type(filename: &str) -> (r: String)
    ensures
        r@ == spec_mime(lower_of(spec_extension(spec_base_name(filename@)))),
{
    let base = base_name_chars(filename);
    let ext_chars = match split_point(&base) {
        Some(p) => {
            let n = base.len();
            let mut s: Vec<char> = Vec::new();
            let mut i: usize = p + 1;
            while i < n
                invariant
                    p + 1 <= i <= n,
                    n == base@.len(),
                    s@ == base@.subrange(p + 1, i as int),
                decreases n - i,
            {
                s.push(base[i]);
                i += 1;
                proof {
                    assert(s@ =~= base@.subrange(p + 1, i as int));
                }
            }
            s
        },
        None => Vec::new(),
    };
    let ext_str = chars_to_string(&ext_chars);
    let ext = lowercase(ext_str.as_str());
    let e = ext.as_str();
    let r: &'static str = if str_eq(e, "png") {
        "image/png"
    } else if str_eq(e, "jpg") || str_eq(e, "jpeg") {
        "image/jpeg"
    } else if str_eq(e, "gif") {
        "image/gif"
    } else if str_eq(e, "webp") {
        "image/webp"
    } else if str_eq(e, "bmp") {
        "image/bmp"
    } else if str_eq(e, "svg") {
        "image/svg+xml"
    } else if str_eq(e, "pdf") {
        "application/pdf"
    } else if str_eq(e, "txt") {
        "text/plain"
    } else if str_eq(e, "md") {
        "text/markdown"
    } else if str_eq(e, "json") {
        "application/json"
    } else if str_eq(e, "xml") {
        "application/xml"
    } else if str_eq(e, "html") || str_eq(e, "htm") {
        "text/html"
    } else if str_eq(e, "css") {
        "text/css"
    } else if str_eq(e, "js") {
        "application/javascript"
    } else if str_eq(e, "ts") {
        "application/typescript"
    } else if str_eq(e, "zip") {
        "application/zip"
    } else if str_eq(e, "doc") {
        "application/msword"
    } else if str_eq(e, "docx") {
        "application/vnd.openxmlformats-officedocument.wordprocessingml.document"
    } else if str_eq(e, "xls") {
        "application/vnd.ms-excel"
    } else if str_eq(e, "xlsx") {
        "application/vnd.openxmlformats-officedocument.spreadsheetml.sheet"
    } else if str_eq(e, "ppt") {
        "application/vnd.ms-powerpoint"
    } else if str_eq(e, "pptx") {
        "application/vnd.openxmlformats-officedocument.presentationml.presentation"
    } else if str_eq(e, "csv") {
        "text/csv"
    } else {
        "application/octet-stream"
    };
    proof {
        assert(ext_chars@ == spec_extension(spec_base_name(filename@)));
    }
    r.to_owned()
}

} // verus!
