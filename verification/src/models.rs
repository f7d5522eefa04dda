//! The fixed table from logical model names to artifact file stems.

use vstd::prelude::*;
use vstd::string::*;

verus! {

/// The lowercase form of a string as `str::to_lowercase` computes it.
pub uninterp spec fn lowercase_of(s: Seq<char>) -> Seq<char>;

/// Calls `str::to_lowercase`. The result is the Unicode lowercase mapping of
/// the argument, which is a function of the argument alone; it is named, not
/// spelled out.
#[verifier::external_body]
pub(crate) fn lowercased(name: &str) -> (r: String)
    ensures
        r@ == lowercase_of(name@),
{
    name.to_lowercase()
}

/// The logical names that the table holds, in lowercase.
pub open spec fn is_model_name(key: Seq<char>) -> bool {
    key == "tiny"@ || key == "base"@ || key == "small"@ || key == "medium"@ || key == "large"@
        || key == "large-v3-q5_0"@
}

/// What every artifact stem begins with.
pub const STEM_PREFIX: &'static str = "ggml-";

/// The artifact stem that the table gives for a lowercase key, if any: the
/// key behind the common prefix.
pub open spec fn stem_of(key: Seq<char>) -> Option<Seq<char>> {
    if is_model_name(key) {
        Some(STEM_PREFIX@ + key)
    } else {
        None
    }
}

/// Whether `stem` is one of the artifact stems in the table.
pub open spec fn is_stem(stem: Seq<char>) -> bool {
    exists|key: Seq<char>| stem_of(key) == Some(stem)
}

fn same_text(a: &str, b: &str) -> (r: bool)
    ensures
        r == (a@ == b@),
{
    let x = a.to_owned();
    let y = b.to_owned();
    x == y
}

/// Each stem of the table is its key behind the prefix.
proof fn lemma_table_entries()
    ensures
        "ggml-tiny"@ == STEM_PREFIX@ + "tiny"@,
        "ggml-base"@ == STEM_PREFIX@ + "base"@,
        "ggml-small"@ == STEM_PREFIX@ + "small"@,
        "ggml-medium"@ == STEM_PREFIX@ + "medium"@,
        "ggml-large"@ == STEM_PREFIX@ + "large"@,
        "ggml-large-v3-q5_0"@ == STEM_PREFIX@ + "large-v3-q5_0"@,
{
    reveal_strlit("ggml-");
    reveal_strlit("tiny");
    reveal_strlit("base");
    reveal_strlit("small");
    reveal_strlit("medium");
    reveal_strlit("large");
    reveal_strlit("large-v3-q5_0");
    reveal_strlit("ggml-tiny");
    reveal_strlit("ggml-base");
    reveal_strlit("ggml-small");
    reveal_strlit("ggml-medium");
    reveal_strlit("ggml-large");
    reveal_strlit("ggml-large-v3-q5_0");
    assert("ggml-tiny"@ =~= STEM_PREFIX@ + "tiny"@);
    assert("ggml-base"@ =~= STEM_PREFIX@ + "base"@);
    assert("ggml-small"@ =~= STEM_PREFIX@ + "small"@);
    assert("ggml-medium"@ =~= STEM_PREFIX@ + "medium"@);
    assert("ggml-large"@ =~= STEM_PREFIX@ + "large"@);
    assert("ggml-large-v3-q5_0"@ =~= STEM_PREFIX@ + "large-v3-q5_0"@);
}

/// Looks a key up in the table, matching it exactly.
pub fn lookup_stem(key: &str) -> (r: Option<&'static str>)
    ensures
        match r {
            Some(s) => stem_of(key@) == Some(s@),
            None => stem_of(key@) is None,
        },
{
    proof {
        lemma_table_entries();
    }
    if same_text(key, "tiny") {
        Some("ggml-tiny")
    } else if same_text(key, "base") {
        Some("ggml-base")
    } else if same_text(key, "small") {
        Some("ggml-small")
    } else if same_text(key, "medium") {
        Some("ggml-medium")
    } else if same_text(key, "large") {
        Some("ggml-large")
    } else if same_text(key, "large-v3-q5_0") {
        Some("ggml-large-v3-q5_0")
    } else {
        None
    }
}

/// Resolves a logical model name, ignoring case, to its artifact stem.
pub fn resolve_model(name: &str) -> (r: Option<&'static str>)
    ensures
        match r {
            Some(s) => stem_of(lowercase_of(name@)) == Some(s@),
            None => stem_of(lowercase_of(name@)) is None,
        },
{
    let key = lowercased(name);
    lookup_stem(key.as_str())
}

} // verus!
