//! Linked registration source locations.

use vstd::prelude::*;
use vstd::string::StringSliceAdditionalSpecFns;

use crate::internal::text::bytes_lt;
use crate::internal::text::compare_bytes;
use crate::internal::text::lemma_bytes_lt_asymmetric;
use crate::internal::text::lemma_bytes_lt_transitive;
use crate::internal::text::TextOrder;

verus! {

/// Source location for one linked registration.
#[derive(Clone, Copy, Debug, PartialEq, Eq, PartialOrd, Ord, Hash)]
pub struct RegistrationSource {
    /// Name of the declaring crate.
    crate_name: &'static str,
    /// Declaring module path.
    module_name: &'static str,
    /// Source file path.
    file: &'static str,
    /// One-based source line.
    line: u32,
}

/// Strict lexicographic order on two fields: `a` sorts before `b` on the
/// first field, or both agree there and `a` sorts first on the rest.
pub open spec fn text_then(a: Seq<u8>, b: Seq<u8>, rest: bool) -> bool {
    bytes_lt(a, b) || (a == b && rest)
}

/// The order of source locations: by crate name, then module path, then
/// file, then line, comparing text by its UTF-8 bytes (the derived order).
pub open spec fn source_lt(a: RegistrationSource, b: RegistrationSource) -> bool {
    text_then(
        a.spec_crate_name().spec_bytes(),
        b.spec_crate_name().spec_bytes(),
        text_then(
            a.spec_module_name().spec_bytes(),
            b.spec_module_name().spec_bytes(),
            text_then(a.spec_file().spec_bytes(), b.spec_file().spec_bytes(), a.spec_line() < b.spec_line()),
        ),
    )
}

/// Whether two source locations agree on every field's text and line.
pub open spec fn same_source(a: RegistrationSource, b: RegistrationSource) -> bool {
    &&& a.spec_crate_name().spec_bytes() == b.spec_crate_name().spec_bytes()
    &&& a.spec_module_name().spec_bytes() == b.spec_module_name().spec_bytes()
    &&& a.spec_file().spec_bytes() == b.spec_file().spec_bytes()
    &&& a.spec_line() == b.spec_line()
}

/// The source order is a strict order: irreflexive and asymmetric.
pub proof fn lemma_source_lt_asymmetric(a: RegistrationSource, b: RegistrationSource)
    ensures
        source_lt(a, b) ==> !source_lt(b, a),
        !source_lt(a, a),
{
    lemma_bytes_lt_asymmetric(a.spec_crate_name().spec_bytes(), b.spec_crate_name().spec_bytes());
    lemma_bytes_lt_asymmetric(a.spec_module_name().spec_bytes(), b.spec_module_name().spec_bytes());
    lemma_bytes_lt_asymmetric(a.spec_file().spec_bytes(), b.spec_file().spec_bytes());
    lemma_bytes_lt_asymmetric(a.spec_crate_name().spec_bytes(), a.spec_crate_name().spec_bytes());
    lemma_bytes_lt_asymmetric(a.spec_module_name().spec_bytes(), a.spec_module_name().spec_bytes());
    lemma_bytes_lt_asymmetric(a.spec_file().spec_bytes(), a.spec_file().spec_bytes());
}

/// Lexicographic combination keeps transitivity.
proof fn lemma_text_then_transitive(a: Seq<u8>, b: Seq<u8>, c: Seq<u8>, ab: bool, bc: bool, ac: bool)
    requires
        text_then(a, b, ab),
        text_then(b, c, bc),
        ab && bc ==> ac,
    ensures
        text_then(a, c, ac),
{
    if bytes_lt(a, b) && bytes_lt(b, c) {
        lemma_bytes_lt_transitive(a, b, c);
    }
}

/// The source order is transitive.
pub proof fn lemma_source_lt_transitive(a: RegistrationSource, b: RegistrationSource, c: RegistrationSource)
    requires
        source_lt(a, b),
        source_lt(b, c),
    ensures
        source_lt(a, c),
{
    let ab_file = text_then(a.spec_file().spec_bytes(), b.spec_file().spec_bytes(), a.spec_line() < b.spec_line());
    let bc_file = text_then(b.spec_file().spec_bytes(), c.spec_file().spec_bytes(), b.spec_line() < c.spec_line());
    let ac_file = text_then(a.spec_file().spec_bytes(), c.spec_file().spec_bytes(), a.spec_line() < c.spec_line());
    if ab_file && bc_file {
        lemma_text_then_transitive(
            a.spec_file().spec_bytes(), b.spec_file().spec_bytes(), c.spec_file().spec_bytes(),
            a.spec_line() < b.spec_line(), b.spec_line() < c.spec_line(), a.spec_line() < c.spec_line(),
        );
    }
    let ab_module = text_then(a.spec_module_name().spec_bytes(), b.spec_module_name().spec_bytes(), ab_file);
    let bc_module = text_then(b.spec_module_name().spec_bytes(), c.spec_module_name().spec_bytes(), bc_file);
    if ab_module && bc_module {
        lemma_text_then_transitive(
            a.spec_module_name().spec_bytes(), b.spec_module_name().spec_bytes(), c.spec_module_name().spec_bytes(),
            ab_file, bc_file, ac_file,
        );
    }
    let ac_module = text_then(a.spec_module_name().spec_bytes(), c.spec_module_name().spec_bytes(), ac_file);
    lemma_text_then_transitive(
        a.spec_crate_name().spec_bytes(), b.spec_crate_name().spec_bytes(), c.spec_crate_name().spec_bytes(),
        ab_module, bc_module, ac_module,
    );
}

/// Compares two texts by their UTF-8 bytes.
fn compare_text(a: &str, b: &str) -> (r: TextOrder)
    ensures
        (r == TextOrder::Less) == bytes_lt(a.spec_bytes(), b.spec_bytes()),
        (r == TextOrder::Equal) == (a.spec_bytes() == b.spec_bytes()),
        (r == TextOrder::Greater) == bytes_lt(b.spec_bytes(), a.spec_bytes()),
{
    compare_bytes(a.as_bytes(), b.as_bytes())
}

impl RegistrationSource {
    /// The declaring crate name.
    pub closed spec fn spec_crate_name(self) -> &'static str {
        self.crate_name
    }

    /// The declaring module path.
    pub closed spec fn spec_module_name(self) -> &'static str {
        self.module_name
    }

    /// The source file path.
    pub closed spec fn spec_file(self) -> &'static str {
        self.file
    }

    /// The one-based source line.
    pub closed spec fn spec_line(self) -> u32 {
        self.line
    }

    /// Creates a source location captured by a registration macro.
    pub fn new(crate_name: &'static str, module_name: &'static str, file: &'static str, line: u32) -> (r: Self)
        ensures
            r.spec_crate_name() == crate_name,
            r.spec_module_name() == module_name,
            r.spec_file() == file,
            r.spec_line() == line,
    {
        RegistrationSource { crate_name, module_name, file, line }
    }

    /// Returns the declaring crate name.
    pub fn crate_name(&self) -> (r: &'static str)
        ensures
            r == self.spec_crate_name(),
    {
        self.crate_name
    }

    /// Returns the declaring module path.
    pub fn module_name(&self) -> (r: &'static str)
        ensures
            r == self.spec_module_name(),
    {
        self.module_name
    }

    /// Returns the source file path.
    pub fn file(&self) -> (r: &'static str)
        ensures
            r == self.spec_file(),
    {
        self.file
    }

    /// Returns the one-based source line.
    pub fn line(&self) -> (r: u32)
        ensures
            r == self.spec_line(),
    {
        self.line
    }

    /// Compares two source locations in their natural order.
    pub fn compare(&self, other: &RegistrationSource) -> (r: TextOrder)
        ensures
            (r == TextOrder::Less) == source_lt(*self, *other),
            (r == TextOrder::Equal) == same_source(*self, *other),
            (r == TextOrder::Greater) == source_lt(*other, *self),
    {
        proof {
            lemma_source_lt_asymmetric(*self, *other);
        }
        match compare_text(self.crate_name, other.crate_name) {
            TextOrder::Equal => {},
            order => return order,
        }
        match compare_text(self.module_name, other.module_name) {
            TextOrder::Equal => {},
            order => return order,
        }
        match compare_text(self.file, other.file) {
            TextOrder::Equal => {},
            order => return order,
        }
        if self.line < other.line {
            TextOrder::Less
        } else if self.line == other.line {
            TextOrder::Equal
        } else {
            TextOrder::Greater
        }
    }
}

} // verus!
