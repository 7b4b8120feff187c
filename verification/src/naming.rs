//! Naming-case rules applied to rendered names.
//!
//! Case conversion itself is done by the `heck` crate and by `str`'s own
//! case functions; their results are pure functions of the input string and
//! are given names here so that contracts can speak about them exactly.

use vstd::prelude::*;
use heck::ToLowerCamelCase;
use heck::ToShoutySnakeCase;
use heck::ToSnakeCase;
use heck::ToUpperCamelCase;

verus! {

/// Naming style, like lower or UPPER case.
#[derive(Clone, Copy, PartialEq, Eq, Structural, Debug)]
pub enum NameCase {
    /// Names all in lowercase without spacing, e.g. `thetypename`.
    Lower,
    /// Names all in uppercase without spacing, e.g. `THETYPENAME`.
    Upper,
    /// Names in mixed case starting with lowercase, e.g. `theTypeName`.
    LowerCamel,
    /// Names in mixed case starting with uppercase, e.g. `TheTypeName`.
    UpperCamel,
    /// Names in lower case with `_` as spacing, e.g. `the_type_name`.
    Snake,
    /// Names in upper case with `_` as spacing, e.g. `THE_TYPE_NAME`.
    ShoutySnake,
}

impl Default for NameCase {
    fn default() -> (r: Self)
        ensures
            r == NameCase::Upper,
    {
        NameCase::Upper
    }
}

/// What `str::to_lowercase` returns.
pub uninterp spec fn lower_of(s: Seq<char>) -> Seq<char>;

/// What `str::to_uppercase` returns.
pub uninterp spec fn upper_of(s: Seq<char>) -> Seq<char>;

/// What `heck::ToLowerCamelCase::to_lower_camel_case` returns.
pub uninterp spec fn lower_camel_of(s: Seq<char>) -> Seq<char>;

/// What `heck::ToUpperCamelCase::to_upper_camel_case` returns.
pub uninterp spec fn upper_camel_of(s: Seq<char>) -> Seq<char>;

/// What `heck::ToSnakeCase::to_snake_case` returns.
pub uninterp spec fn snake_of(s: Seq<char>) -> Seq<char>;

/// What `heck::ToShoutySnakeCase::to_shouty_snake_case` returns.
pub uninterp spec fn shouty_snake_of(s: Seq<char>) -> Seq<char>;

/// Relies on str::to_lowercase: the result depends on the characters alone,
/// and no characters means no output.
#[verifier::external_body]
pub(crate) fn to_lowercase(s: &str) -> (r: String)
    ensures
        r@ == lower_of(s@),
        s@.len() == 0 ==> r@.len() == 0,
{
    s.to_lowercase()
}

/// Relies on str::to_uppercase: the result depends on the characters alone,
/// and no characters means no output.
#[verifier::external_body]
pub(crate) fn to_uppercase(s: &str) -> (r: String)
    ensures
        r@ == upper_of(s@),
        s@.len() == 0 ==> r@.len() == 0,
{
    s.to_uppercase()
}

/// Relies on heck::ToLowerCamelCase for str: the result depends on the
/// characters alone, and no characters means no words, so no output.
#[verifier::external_body]
pub(crate) fn to_lower_camel(s: &str) -> (r: String)
    ensures
        r@ == lower_camel_of(s@),
        s@.len() == 0 ==> r@.len() == 0,
{
    s.to_lower_camel_case()
}

/// Relies on heck::ToUpperCamelCase for str: the result depends on the
/// characters alone, and no characters means no words, so no output.
#[verifier::external_body]
pub(crate) fn to_upper_camel(s: &str) -> (r: String)
    ensures
        r@ == upper_camel_of(s@),
        s@.len() == 0 ==> r@.len() == 0,
{
    s.to_upper_camel_case()
}

/// Relies on heck::ToSnakeCase for str: the result depends on the characters
/// alone, and no characters means no words, so no output.
#[verifier::external_body]
pub(crate) fn to_snake(s: &str) -> (r: String)
    ensures
        r@ == snake_of(s@),
        s@.len() == 0 ==> r@.len() == 0,
{
    s.to_snake_case()
}

/// Relies on heck::ToShoutySnakeCase for str: the result depends on the
/// characters alone, and no characters means no words, so no output.
#[verifier::external_body]
pub(crate) fn to_shouty_snake(s: &str) -> (r: String)
    ensures
        r@ == shouty_snake_of(s@),
        s@.len() == 0 ==> r@.len() == 0,
{
    s.to_shouty_snake_case()
}

/// A name rendered under a naming style.
pub open spec fn naming_style_of(s: Seq<char>, style: NameCase) -> Seq<char> {
    match style {
        NameCase::Lower => lower_of(s),
        NameCase::Upper => upper_of(s),
        NameCase::LowerCamel => lower_camel_of(s),
        NameCase::UpperCamel => upper_camel_of(s),
        NameCase::Snake => snake_of(s),
        NameCase::ShoutySnake => shouty_snake_of(s),
    }
}

/// Things that can be rendered under a [`NameCase`].
pub trait ToNamingStyle {
    /// The characters of the name being rendered.
    spec fn name_chars(&self) -> Seq<char>;

    /// Renders the name under the given style.
    fn to_naming_style(&self, style: &NameCase) -> (r: String)
        ensures
            r@ == naming_style_of(self.name_chars(), *style),
    ;
}

impl ToNamingStyle for String {
    open spec fn name_chars(&self) -> Seq<char> {
        self@
    }

    fn to_naming_style(&self, style: &NameCase) -> (r: String)
        ensures
            r@ == naming_style_of(self.name_chars(), *style),
    {
        self.as_str().to_naming_style(style)
    }
}

impl ToNamingStyle for str {
    open spec fn name_chars(&self) -> Seq<char> {
        self@
    }

    fn to_naming_style(&self, style: &NameCase) -> (r: String)
        ensures
            r@ == naming_style_of(self.name_chars(), *style),
    {
        match style {
            NameCase::Lower => to_lowercase(self),
            NameCase::Upper => to_uppercase(self),
            NameCase::LowerCamel => to_lower_camel(self),
            NameCase::UpperCamel => to_upper_camel(self),
            NameCase::Snake => to_snake(self),
            NameCase::ShoutySnake => to_shouty_snake(self),
        }
    }
}

} // verus!
