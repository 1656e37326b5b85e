use vstd::prelude::*;
use vstd::string::StringExecFns;
use crate::text::contains_str;
use crate::text::lower_of;
use crate::text::lowercase;
use crate::text::spec_contains;
use crate::text::str_eq;

verus! {

/// Maximum total size of docs content to include, in bytes.
pub const MAX_TOTAL_DOCS_SIZE: usize = 100000;

/// Maximum size of a single document, in bytes.
pub const MAX_SINGLE_DOC_SIZE: usize = 50000;

/// A scanned document with its content and placement priority.
pub struct ScannedDoc {
    pub relative_path: String,
    pub content: String,
    pub priority: usize,
}

/// The priority a document earns from its lowercased path: the keywords
/// are ranked from `requirements` down to `readme`, and the first that the
/// path contains decides; a path with none gets zero.
pub open spec fn spec_priority(lower_path: Seq<char>) -> int {
    if spec_contains(lower_path, "requirements"@) {
        7
    } else if spec_contains(lower_path, "prd"@) {
        6
    } else if spec_contains(lower_path, "spec"@) {
        5
    } else if spec_contains(lower_path, "design"@) {
        4
    } else if spec_contains(lower_path, "architecture"@) {
        3
    } else if spec_contains(lower_path, "api"@) {
        2
    } else if spec_contains(lower_path, "readme"@) {
        1
    } else {
        0
    }
}

impl ScannedDoc {
    /// Ranks a document path by the priority keywords it contains.
    pub fn calculate_priority(path: &str) -> (r: usize)
        ensures
            r == spec_priority(lower_of(path@)),
            r <= 7,
    {
        let lp = lowercase(path);
        if contains_str(lp.as_str(), "requirements") {
            7
        } else if contains_str(lp.as_str(), "prd") {
            6
        } else if contains_str(lp.as_str(), "spec") {
            5
        } else if contains_str(lp.as_str(), "design") {
            4
        } else if contains_str(lp.as_str(), "architecture") {
            3
        } else if contains_str(lp.as_str(), "api") {
            2
        } else if contains_str(lp.as_str(), "readme") {
            1
        } else {
            0
        }
    }

    /// A scanned document, ranked by its path.
    pub fn new(relative_path: String, content: String) -> (r: ScannedDoc)
        ensures
            r.relative_path == relative_path,
            r.content == content,
            r.priority == spec_priority(lower_of(relative_path@)),
            r.priority <= 7,
    {
        let priority = Self::calculate_priority(relative_path.as_str());
        ScannedDoc { relative_path, content, priority }
    }

    /// A field-for-field copy of this document.
    pub fn duplicate(&self) -> (r: ScannedDoc)
        ensures
            r == *self,
    {
        ScannedDoc {
            relative_path: self.relative_path.clone(),
            content: self.content.clone(),
            priority: self.priority,
        }
    }
}

/// Whether a lowercased file extension belongs to a supported document.
pub open spec fn spec_supported_extension(ext: Seq<char>) -> bool {
    ext == "md"@ || ext == "txt"@ || ext == "rst"@
}

/// Whether a lowercased file extension belongs to a supported document.
pub fn supported_extension(ext: &str) -> (r: bool)
    ensures
        r == spec_supported_extension(ext@),
{
    str_eq(ext, "md") || str_eq(ext, "txt") || str_eq(ext, "rst")
}

/// What the scan does with one candidate file.
#[derive(Clone, Copy, PartialEq, Eq, Structural, Debug)]
pub enum DocVerdict {
    Stop,
    SkipExtension,
    SkipTooLarge,
    SkipOverBudget,
    Accept,
}

/// The scan's per-file decision: once the budget is reached the scan
/// stops; a file without a supported extension is skipped; so is one over
/// the single-document cap, or one that would push the total over budget.
pub open spec fn spec_admit_doc(
    ext_lower: Option<Seq<char>>,
    content_len: int,
    total_size: int,
) -> DocVerdict {
    if total_size >= MAX_TOTAL_DOCS_SIZE {
        DocVerdict::Stop
    } else if !(ext_lower matches Some(e) && spec_supported_extension(e)) {
        DocVerdict::SkipExtension
    } else if content_len > MAX_SINGLE_DOC_SIZE {
        DocVerdict::SkipTooLarge
    } else if total_size + content_len > MAX_TOTAL_DOCS_SIZE {
        DocVerdict::SkipOverBudget
    } else {
        DocVerdict::Accept
    }
}

/// Decides what the scan does with one candidate file, from its lowercased
/// extension, its content size, and the total collected so far.
pub fn admit_doc(ext_lower: Option<&str>, content_len: usize, total_size: usize) -> (r: DocVerdict)
    ensures
        r == spec_admit_doc(
            match ext_lower {
                Some(e) => Some(e@),
                None => None,
            },
            content_len as int,
            total_size as int,
        ),
{
    if total_size >= MAX_TOTAL_DOCS_SIZE {
        return DocVerdict::Stop;
    }
    let supported = match ext_lower {
        Some(e) => supported_extension(e),
        None => false,
    };
    if !supported {
        DocVerdict::SkipExtension
    } else if content_len > MAX_SINGLE_DOC_SIZE {
        DocVerdict::SkipTooLarge
    } else if total_size + content_len > MAX_TOTAL_DOCS_SIZE {
        DocVerdict::SkipOverBudget
    } else {
        DocVerdict::Accept
    }
}

/// The documents of one priority, kept in their original order.
pub open spec fn spec_docs_with_priority(s: Seq<ScannedDoc>, p: int) -> Seq<ScannedDoc>
    decreases s.len(),
{
    if s.len() == 0 {
        Seq::<ScannedDoc>::empty()
    } else {
        let rest = spec_docs_with_priority(s.drop_last(), p);
        if s.last().priority == p {
            rest.push(s.last())
        } else {
            rest
        }
    }
}

/// The documents ranked `7` down to `p`, each rank keeping original order.
pub open spec fn spec_docs_ranked_from(s: Seq<ScannedDoc>, p: int) -> Seq<ScannedDoc>
    decreases 7 - p,
{
    if p >= 7 {
        spec_docs_with_priority(s, 7)
    } else {
        spec_docs_ranked_from(s, p + 1) + spec_docs_with_priority(s, p)
    }
}

/// The stable sort of the scanned documents by priority, highest first:
/// documents of equal priority keep their scan order.
pub open spec fn spec_sorted_docs(s: Seq<ScannedDoc>) -> Seq<ScannedDoc> {
    spec_docs_ranked_from(s, 0)
}

/// Whether every document carries a rank this module assigns.
pub open spec fn spec_ranks_in_range(docs: Seq<ScannedDoc>) -> bool {
    forall|i: int| 0 <= i < docs.len() ==> (#[trigger] docs[i]).priority <= 7
}

/// Orders the scanned documents by priority, highest first and stably.
/// Every document this module ranks stays within range; a listing with a
/// foreign rank is left in its given order.
pub fn sorted_by_priority(docs: &Vec<ScannedDoc>) -> (r: Vec<ScannedDoc>)
    ensures
        spec_ranks_in_range(docs@) ==> r@ == spec_sorted_docs(docs@),
        !spec_ranks_in_range(docs@) ==> r@ == docs@,
{
    let n0 = docs.len();
    let mut j: usize = 0;
    while j < n0
        invariant
            n0 == docs@.len(),
            j <= n0,
            forall|i: int| 0 <= i < j ==> (#[trigger] docs@[i]).priority <= 7,
        decreases n0 - j,
    {
        if docs[j].priority > 7 {
            let mut copy: Vec<ScannedDoc> = Vec::new();
            let mut c: usize = 0;
            while c < n0
                invariant
                    n0 == docs@.len(),
                    c <= n0,
                    copy@ == docs@.subrange(0, c as int),
                decreases n0 - c,
            {
                copy.push(docs[c].duplicate());
                c += 1;
                proof {
                    assert(copy@ =~= docs@.subrange(0, c as int));
                }
            }
            proof {
                assert(docs@.subrange(0, n0 as int) =~= docs@);
            }
            return copy;
        }
        j += 1;
    }
    let mut out: Vec<ScannedDoc> = Vec::new();
    let mut k: usize = 0;
    while k < 8
        invariant
            k <= 8,
            spec_ranks_in_range(docs@),
            k == 0 ==> out@ == Seq::<ScannedDoc>::empty(),
            k > 0 ==> out@ == spec_docs_ranked_from(docs@, 8 - k),
        decreases 8 - k,
    {
        let pri = 7 - k;
        let ghost base = out@;
        let n = docs.len();
        let mut i: usize = 0;
        while i < n
            invariant
                n == docs@.len(),
                i <= n,
                out@ == base + spec_docs_with_priority(docs@.subrange(0, i as int), pri as int),
            decreases n - i,
        {
            if docs[i].priority == pri {
                out.push(docs[i].duplicate());
            }
            i += 1;
            proof {
                let pre = docs@.subrange(0, i - 1);
                let cur = docs@.subrange(0, i as int);
                assert(cur.drop_last() =~= pre);
                assert(cur.last() == docs@[i - 1]);
                assert(out@ =~= base + spec_docs_with_priority(cur, pri as int));
            }
        }
        proof {
            assert(docs@.subrange(0, n as int) =~= docs@);
            if k == 0 {
                assert(out@ =~= spec_docs_ranked_from(docs@, 7));
            } else {
                assert(out@ =~= spec_docs_ranked_from(docs@, 8 - k) + spec_docs_with_priority(
                    docs@,
                    pri as int,
                ));
            }
        }
        k += 1;
    }
    out
}

/// The fixed preamble of the documentation context.
pub open spec fn spec_docs_header() -> Seq<char> {
    "# Project Documentation\n\n"@
        + "The following documentation files are available in the docs/ folder. "@
        + "Please review them for project context, requirements, and design decisions.\n\n"@
}

/// One document's section of the context: its path under `docs/`, its
/// content, and a rule.
pub open spec fn spec_doc_section(d: ScannedDoc) -> Seq<char> {
    "## docs/"@ + d.relative_path@ + "\n\n"@ + d.content@ + "\n\n---\n\n"@
}

/// The concatenated sections of all documents, in order.
pub open spec fn spec_docs_body(docs: Seq<ScannedDoc>) -> Seq<char>
    decreases docs.len(),
{
    if docs.len() == 0 {
        Seq::<char>::empty()
    } else {
        spec_docs_body(docs.drop_last()) + spec_doc_section(docs.last())
    }
}

/// The whole context string handed to the agent prompt, or nothing when no
/// documents were scanned.
pub open spec fn spec_docs_context(docs: Seq<ScannedDoc>) -> Option<Seq<char>> {
    if docs.len() == 0 {
        None
    } else {
        Some(spec_docs_header() + spec_docs_body(docs))
    }
}

/// Builds the context string from the scanned documents: a preamble, then
/// one section per document in the given order; no documents, no context.
pub fn build_docs_context(docs: &Vec<ScannedDoc>) -> (r: Option<String>)
    ensures
        ({
            match r {
                Some(s) => spec_docs_context(docs@) == Some(s@),
                None => spec_docs_context(docs@) is None,
            }
        }),
{
    if docs.len() == 0 {
        return None;
    }
    let mut out = "# Project Documentation\n\n".to_owned();
    out.append("The following documentation files are available in the docs/ folder. ");
    out.append("Please review them for project context, requirements, and design decisions.\n\n");
    let n = docs.len();
    let mut i: usize = 0;
    while i < n
        invariant
            n == docs@.len(),
            i <= n,
            out@ == spec_docs_header() + spec_docs_body(docs@.subrange(0, i as int)),
        decreases n - i,
    {
        out.append("## docs/");
        out.append(docs[i].relative_path.as_str());
        out.append("\n\n");
        out.append(docs[i].content.as_str());
        out.append("\n\n---\n\n");
        i += 1;
        proof {
            let pre = docs@.subrange(0, i - 1);
            let cur = docs@.subrange(0, i as int);
            assert(cur.drop_last() =~= pre);
            assert(cur.last() == docs@[i - 1]);
            assert(out@ =~= spec_docs_header() + spec_docs_body(cur));
        }
    }
    proof {
        assert(docs@.subrange(0, n as int) =~= docs@);
    }
    Some(out)
}

} // verus!
