//! Name resolution: pure string policy.
//!
//! The wrapper name is either an explicit override used verbatim, or the
//! input type's name with the `Kind` suffix stripped; without either the
//! resolution fails. The accessor suffix is inferred from the payload type's
//! name alone: `..Kind` gives `kind`, `..Data` gives `data`, anything else
//! gives `inner`.

use vstd::prelude::*;
use vstd::string::*;
use crate::diag::Diagnostic;

verus! {

/// True when `name` ends with the character sequence `suffix`.
pub open spec fn ends_with(name: Seq<char>, suffix: Seq<char>) -> bool {
    name.len() >= suffix.len() && name.subrange(
        name.len() - suffix.len(),
        name.len() as int,
    ) == suffix
}

/// `name` with its last `n` characters removed.
pub open spec fn strip_last(name: Seq<char>, n: int) -> Seq<char> {
    name.subrange(0, name.len() - n)
}

/// Equality of two string slices, by their character sequences.
pub(crate) fn str_eq(a: &str, b: &str) -> (r: bool)
    ensures
        r == (a@ == b@),
{
    let sa = String::from_str(a);
    let sb = String::from_str(b);
    sa == sb
}

/// Whether `name` ends with `suffix`, counting characters, not bytes.
pub fn ends_with_str(name: &str, suffix: &str) -> (r: bool)
    ensures
        r == ends_with(name@, suffix@),
{
    let n = name.unicode_len();
    let m = suffix.unicode_len();
    if n < m {
        false
    } else {
        let tail = name.substring_char(n - m, n);
        str_eq(tail, suffix)
    }
}

/// `name` with its last `n` characters removed, as an owned string.
fn strip_last_chars(name: &str, n: usize) -> (r: String)
    requires
        n <= name@.len(),
    ensures
        r@ == strip_last(name@, n as int),
{
    let len = name.unicode_len();
    let head = name.substring_char(0, len - n);
    String::from_str(head)
}

/// The wrapper name that resolution yields for an input type name and an
/// optional explicit override.
pub open spec fn wrapper_name_outcome(name: Seq<char>, override_name: Option<Seq<char>>) -> Result<
    Seq<char>,
    Diagnostic,
> {
    match override_name {
        Some(o) => Ok(o),
        None => if ends_with(name, "Kind"@) {
            Ok(strip_last(name, "Kind"@.len() as int))
        } else {
            Err(Diagnostic::MissingKindSuffix)
        },
    }
}

/// Resolves the wrapper type's name: an override is used verbatim; otherwise
/// the input name must end in `Kind`, which is stripped.
pub fn resolve_wrapper_name(input_name: &str, override_name: &Option<String>) -> (r: Result<
    String,
    Diagnostic,
>)
    ensures
        (match override_name {
            Some(o) => r matches Ok(w) && wrapper_name_outcome(input_name@, Some(o@)) == Ok::<
                _,
                Diagnostic,
            >(w@),
            None => (match wrapper_name_outcome(input_name@, None) {
                Ok(w) => r matches Ok(x) && x@ == w,
                Err(d) => r matches Err(e) && e == d,
            }),
        }),
{
    match override_name {
        Some(o) => Ok(o.clone()),
        None => {
            let suffix = "Kind";
            if ends_with_str(input_name, suffix) {
                let m = suffix.unicode_len();
                Ok(strip_last_chars(input_name, m))
            } else {
                Err(Diagnostic::MissingKindSuffix)
            }
        },
    }
}

/// The vocabulary from which generated accessor names are built.
#[derive(Clone, Copy, Debug, PartialEq, Eq, Structural)]
pub enum AccessorSuffix {
    /// Payload name ends in `Kind`: accessors `as_kind` / `into_kind`.
    Kind,
    /// Payload name ends in `Data`: accessors `as_data` / `into_data`.
    Data,
    /// Any other payload name: accessors `as_inner` / `into_inner`.
    Inner,
}

/// The accessor suffix inferred from the payload type's name.
pub open spec fn inferred_suffix(inner_name: Seq<char>) -> AccessorSuffix {
    if ends_with(inner_name, "Kind"@) {
        AccessorSuffix::Kind
    } else if ends_with(inner_name, "Data"@) {
        AccessorSuffix::Data
    } else {
        AccessorSuffix::Inner
    }
}

/// Infers the accessor suffix from the payload type's name.
pub fn infer_suffix(inner_name: &str) -> (s: AccessorSuffix)
    ensures
        s == inferred_suffix(inner_name@),
{
    if ends_with_str(inner_name, "Kind") {
        AccessorSuffix::Kind
    } else if ends_with_str(inner_name, "Data") {
        AccessorSuffix::Data
    } else {
        AccessorSuffix::Inner
    }
}

impl AccessorSuffix {
    /// The word this suffix contributes to accessor names.
    pub open spec fn spec_word(self) -> Seq<char> {
        match self {
            AccessorSuffix::Kind => "kind"@,
            AccessorSuffix::Data => "data"@,
            AccessorSuffix::Inner => "inner"@,
        }
    }

    /// The name of the generated borrowing accessor, `as_<suffix>`.
    pub open spec fn spec_as_name(self) -> Seq<char> {
        "as_"@ + self.spec_word()
    }

    /// The name of the generated consuming accessor, `into_<suffix>`.
    pub open spec fn spec_into_name(self) -> Seq<char> {
        "into_"@ + self.spec_word()
    }

    /// The word this suffix contributes to accessor names.
    pub fn word(&self) -> (r: &'static str)
        ensures
            r@ == self.spec_word(),
    {
        match self {
            AccessorSuffix::Kind => "kind",
            AccessorSuffix::Data => "data",
            AccessorSuffix::Inner => "inner",
        }
    }

    /// Builds the borrowing accessor's name, `as_<suffix>`.
    pub fn as_name(&self) -> (r: String)
        ensures
            r@ == self.spec_as_name(),
    {
        let mut s = String::from_str("as_");
        s.append(self.word());
        s
    }

    /// Builds the consuming accessor's name, `into_<suffix>`.
    pub fn into_name(&self) -> (r: String)
        ensures
            r@ == self.spec_into_name(),
    {
        let mut s = String::from_str("into_");
        s.append(self.word());
        s
    }
}

/// For every input name that ends in `Kind` and has no override, the wrapper
/// name is exactly the input name with that suffix removed.
pub proof fn lemma_suffix_stripping(name: Seq<char>)
    requires
        ends_with(name, "Kind"@),
    ensures
        wrapper_name_outcome(name, None) == Ok::<_, Diagnostic>(
            strip_last(name, "Kind"@.len() as int),
        ),
{
}

/// For every input that supplies an explicit override, the wrapper name is
/// exactly that override, whatever the input type's own name.
pub proof fn lemma_override_verbatim(name: Seq<char>, override_name: Seq<char>)
    ensures
        wrapper_name_outcome(name, Some(override_name)) == Ok::<_, Diagnostic>(override_name),
{
}

/// The accessor vocabulary is fully determined by the payload name's ending:
/// `..Kind` gives `kind`, otherwise `..Data` gives `data`, and every other
/// name gives `inner`.
pub proof fn lemma_suffix_inference(inner_name: Seq<char>)
    ensures
        ends_with(inner_name, "Kind"@) ==> inferred_suffix(inner_name) == AccessorSuffix::Kind,
        !ends_with(inner_name, "Kind"@) && ends_with(inner_name, "Data"@) ==> inferred_suffix(
            inner_name,
        ) == AccessorSuffix::Data,
        !ends_with(inner_name, "Kind"@) && !ends_with(inner_name, "Data"@) ==> inferred_suffix(
            inner_name,
        ) == AccessorSuffix::Inner,
{
}

} // verus!
