//! Validated package names and the naming-scheme union around them.
//!
//! A [`PackageName`] holds a `scope/name` pair whose two parts both satisfy
//! the checklist of [`crate::grammar`]; it can only be built by [`PackageName::parse`],
//! so every value in circulation is valid. [`PackageNames`] is the closed
//! union of naming schemes: it currently has the one variant, and consumers
//! reach the parts only through capability accessors, never through
//! variant-specific fields. Parsing at the union level tries each scheme in a
//! fixed order and collapses every fine-grained failure into a single
//! aggregate error.

use std::str::FromStr;
use vstd::prelude::*;
use vstd::string::*;

use crate::grammar::{
    check_part, find_first_slash, has_slash, is_first_slash, is_name_char, joined,
    lemma_first_slash_index, name_of, part_fault, replace_slash, scope_of, scoped_parses,
    valid_part, PartFault,
};

verus! {

/// Which part of a package name an error is about.
#[derive(Debug, Clone, Copy, PartialEq, Eq, Structural)]
pub enum ErrorReason {
    Scope,
    Name,
}

/// Why a string was rejected as a package name. Each variant carries the part
/// (or the whole input, for `InvalidFormat`) that triggered it.
#[derive(Debug, Clone)]
pub enum PackageNameError {
    InvalidFormat(String),
    InvalidCharacters(ErrorReason, String),
    OnlyDigits(ErrorReason, String),
    PrePostfixUnderscore(ErrorReason, String),
    InvalidLength(ErrorReason, String),
}

/// Why a string matched no known naming scheme. The fine-grained reason is
/// deliberately not preserved at this level.
#[derive(Debug, Clone)]
#[non_exhaustive]
pub enum PackageNamesError {
    InvalidPackageName(String),
}

impl ErrorReason {
    /// The word used for this part in user-facing messages.
    pub open spec fn spec_describe(&self) -> Seq<char> {
        match self {
            ErrorReason::Scope => "scope"@,
            ErrorReason::Name => "name"@,
        }
    }

    /// The word used for this part in user-facing messages.
    pub fn describe(&self) -> (r: &'static str)
        ensures
            r@ == self.spec_describe(),
    {
        match self {
            ErrorReason::Scope => "scope",
            ErrorReason::Name => "name",
        }
    }
}

fn part_message(which: &ErrorReason, part: &String, suffix: &str) -> (r: String)
    ensures
        r@ == "package "@ + which.spec_describe() + " `"@ + part@ + suffix@,
{
    let mut out = "package ".to_owned();
    out.append(which.describe());
    out.append(" `");
    out.append(part.as_str());
    out.append(suffix);
    out
}

impl PackageNameError {
    /// The user-facing message for this rejection.
    pub open spec fn spec_message(&self) -> Seq<char> {
        match self {
            PackageNameError::InvalidFormat(s) => "package name `"@ + s@
                + "` is not in the format `scope/name`"@,
            PackageNameError::InvalidCharacters(w, p) => "package "@ + w.spec_describe() + " `"@
                + p@ + "` contains characters outside a-z, 0-9, and _"@,
            PackageNameError::OnlyDigits(w, p) => "package "@ + w.spec_describe() + " `"@ + p@
                + "` contains only digits"@,
            PackageNameError::PrePostfixUnderscore(w, p) => "package "@ + w.spec_describe() + " `"@
                + p@ + "` starts or ends with an underscore"@,
            PackageNameError::InvalidLength(w, p) => "package "@ + w.spec_describe() + " `"@ + p@
                + "` is not within 3-32 characters long"@,
        }
    }

    /// Render the user-facing message for this rejection.
    pub fn message(&self) -> (r: String)
        ensures
            r@ == self.spec_message(),
    {
        match self {
            PackageNameError::InvalidFormat(s) => {
                let mut out = "package name `".to_owned();
                out.append(s.as_str());
                out.append("` is not in the format `scope/name`");
                out
            },
            PackageNameError::InvalidCharacters(w, p) => part_message(
                w,
                p,
                "` contains characters outside a-z, 0-9, and _",
            ),
            PackageNameError::OnlyDigits(w, p) => part_message(w, p, "` contains only digits"),
            PackageNameError::PrePostfixUnderscore(w, p) => part_message(
                w,
                p,
                "` starts or ends with an underscore",
            ),
            PackageNameError::InvalidLength(w, p) => part_message(
                w,
                p,
                "` is not within 3-32 characters long",
            ),
        }
    }
}

impl PackageNamesError {
    /// The user-facing message for this rejection.
    pub open spec fn spec_message(&self) -> Seq<char> {
        match self {
            PackageNamesError::InvalidPackageName(s) => "invalid package name "@ + s@,
        }
    }

    /// Render the user-facing message for this rejection.
    pub fn message(&self) -> (r: String)
        ensures
            r@ == self.spec_message(),
    {
        match self {
            PackageNamesError::InvalidPackageName(s) => {
                let mut out = "invalid package name ".to_owned();
                out.append(s.as_str());
                out
            },
        }
    }
}

/// A validated `scope/name` package identifier. Both parts satisfy the full
/// checklist of [`crate::grammar::valid_part`] and never change afterwards.
#[derive(Debug, Clone, Eq, Hash, PartialOrd, Ord)]
pub struct PackageName(String, String);

impl PackageName {
    /// The scope part, as a sequence of characters.
    pub closed spec fn spec_scope(&self) -> Seq<char> {
        self.0@
    }

    /// The name part, as a sequence of characters.
    pub closed spec fn spec_name(&self) -> Seq<char> {
        self.1@
    }

    /// Both parts satisfy the checklist; established by [`PackageName::parse`]
    /// and preserved forever, since nothing mutates the value.
    pub open spec fn wf(&self) -> bool {
        valid_part(self.spec_scope()) && valid_part(self.spec_name())
    }
}

/// The named part of the input was rejected for fault `f`, with every check
/// before it (scope before name, checklist order within a part) passing.
pub open spec fn part_rejected(t: Seq<char>, which: ErrorReason, p: Seq<char>, f: PartFault) -> bool {
    &&& has_slash(t)
    &&& (match which {
        ErrorReason::Scope => p == scope_of(t) && part_fault(scope_of(t)) == Some(f),
        ErrorReason::Name => p == name_of(t) && part_fault(scope_of(t)) is None
            && part_fault(name_of(t)) == Some(f),
    })
}

fn fault_error(which: ErrorReason, fault: PartFault, part: String) -> (e: PackageNameError)
    ensures
        e == (match fault {
            PartFault::Length => PackageNameError::InvalidLength(which, part),
            PartFault::Digits => PackageNameError::OnlyDigits(which, part),
            PartFault::Underscore => PackageNameError::PrePostfixUnderscore(which, part),
            PartFault::Chars => PackageNameError::InvalidCharacters(which, part),
        }),
{
    match fault {
        PartFault::Length => PackageNameError::InvalidLength(which, part),
        PartFault::Digits => PackageNameError::OnlyDigits(which, part),
        PartFault::Underscore => PackageNameError::PrePostfixUnderscore(which, part),
        PartFault::Chars => PackageNameError::InvalidCharacters(which, part),
    }
}

impl PackageName {
    /// Parse and validate a `scope/name` string.
    ///
    /// The input is split on its first `/` (no `/` at all is `InvalidFormat`),
    /// then the scope and the name are checked in that order against the
    /// checklist, stopping at the first broken rule. On success both parts
    /// satisfy the whole checklist and are stored exactly as they appeared.
    pub fn parse(s: &str) -> (r: Result<PackageName, PackageNameError>)
        ensures
            match r {
                Ok(pn) => scoped_parses(s@) && pn.wf() && pn.spec_scope() == scope_of(s@)
                    && pn.spec_name() == name_of(s@),
                Err(e) => match e {
                    PackageNameError::InvalidFormat(orig) => !has_slash(s@) && orig@ == s@,
                    PackageNameError::InvalidLength(which, p) => part_rejected(
                        s@,
                        which,
                        p@,
                        PartFault::Length,
                    ),
                    PackageNameError::OnlyDigits(which, p) => part_rejected(
                        s@,
                        which,
                        p@,
                        PartFault::Digits,
                    ),
                    PackageNameError::PrePostfixUnderscore(which, p) => part_rejected(
                        s@,
                        which,
                        p@,
                        PartFault::Underscore,
                    ),
                    PackageNameError::InvalidCharacters(which, p) => part_rejected(
                        s@,
                        which,
                        p@,
                        PartFault::Chars,
                    ),
                },
            },
    {
        let i = match find_first_slash(s) {
            Some(i) => i,
            None => {
                return Err(PackageNameError::InvalidFormat(s.to_owned()));
            },
        };
        proof {
            lemma_first_slash_index(s@, i as int);
        }
        let n = s.unicode_len();
        let scope = s.substring_char(0, i);
        let name = s.substring_char(i + 1, n);
        if let Some(f) = check_part(scope) {
            return Err(fault_error(ErrorReason::Scope, f, scope.to_owned()));
        }
        if let Some(f) = check_part(name) {
            return Err(fault_error(ErrorReason::Name, f, name.to_owned()));
        }
        Ok(PackageName(scope.to_owned(), name.to_owned()))
    }

    /// The two parts, as borrowed strings, in `(scope, name)` order.
    pub fn as_str(&self) -> (r: (&str, &str))
        ensures
            r.0@ == self.spec_scope(),
            r.1@ == self.spec_name(),
    {
        (self.0.as_str(), self.1.as_str())
    }

    /// The canonical textual form, `scope/name`.
    pub fn display(&self) -> (r: String)
        ensures
            r@ == joined(self.spec_scope(), self.spec_name(), '/'),
    {
        let mut out = self.0.clone();
        out.append("/");
        out.append(self.1.as_str());
        proof {
            reveal_strlit("/");
            assert("/"@ =~= seq!['/']);
            assert(out@ =~= joined(self.spec_scope(), self.spec_name(), '/'));
        }
        out
    }

    /// The escaped, `/`-free display form, `scope+name`.
    pub fn escaped(&self) -> (r: String)
        ensures
            r@ == joined(self.spec_scope(), self.spec_name(), '+'),
    {
        let mut out = self.0.clone();
        out.append("+");
        out.append(self.1.as_str());
        proof {
            reveal_strlit("+");
            assert("+"@ =~= seq!['+']);
            assert(out@ =~= joined(self.spec_scope(), self.spec_name(), '+'));
        }
        out
    }
}

/// Round trip: joining any two valid parts with the `/` separator gives a
/// string the parser accepts, and it recovers exactly those parts. Together
/// with the contract of [`PackageName::parse`], this says
/// `parse(format(scope, name))` returns `Ok` holding `(scope, name)` whenever
/// the two parts satisfy the checklist.
pub proof fn lemma_format_parse_round_trip(scope: Seq<char>, name: Seq<char>)
    requires
        valid_part(scope),
        valid_part(name),
    ensures
        scoped_parses(joined(scope, name, '/')),
        scope_of(joined(scope, name, '/')) == scope,
        name_of(joined(scope, name, '/')) == name,
{
    let t = joined(scope, name, '/');
    let i = scope.len() as int;
    assert(t.len() == scope.len() + 1 + name.len());
    assert(t[i] == '/');
    assert forall|j: int| 0 <= j < i implies (#[trigger] t[j]) != '/' by {
        assert(t[j] == scope[j]);
        assert(is_name_char(scope[j]));
    };
    assert(is_first_slash(t, i));
    lemma_first_slash_index(t, i);
    assert(scope_of(t) =~= scope);
    assert forall|k: int| 0 <= k < name.len() implies #[trigger] name_of(t)[k] == name[k] by {
        assert(name_of(t)[k] == t[i + 1 + k]);
    };
    assert(name_of(t) =~= name);
}

/// The escaped form replaces exactly the separator: since no valid part may
/// contain a `/`, mapping `/` to `+` over the display form `scope/name`
/// yields precisely the escaped form `scope+name`, and touches no other
/// character. Together with the contracts of [`PackageName::display`] and
/// [`PackageName::escaped`], this says `escaped(v)` equals `display(v)` with
/// its one `/` replaced by `+`.
pub proof fn lemma_escaped_replaces_separator(scope: Seq<char>, name: Seq<char>)
    requires
        valid_part(scope),
        valid_part(name),
    ensures
        joined(scope, name, '+') == replace_slash(joined(scope, name, '/')),
{
    let d = joined(scope, name, '/');
    let e = joined(scope, name, '+');
    assert(replace_slash(d).len() == d.len());
    assert forall|k: int| 0 <= k < d.len() implies #[trigger] e[k] == replace_slash(d)[k] by {
        assert(replace_slash(d)[k] == (if d[k] == '/' {
            '+'
        } else {
            d[k]
        }));
        if k < scope.len() {
            assert(d[k] == scope[k]);
            assert(e[k] == scope[k]);
            assert(is_name_char(scope[k]));
        } else if k == scope.len() {
            assert(d[k] == '/');
            assert(e[k] == '+');
        } else {
            assert(d[k] == name[k - scope.len() - 1]);
            assert(e[k] == name[k - scope.len() - 1]);
            assert(is_name_char(name[k - scope.len() - 1]));
        }
    };
    assert(e =~= replace_slash(d));
}

impl PartialEq for PackageName {
    fn eq(&self, other: &Self) -> (r: bool) {
        self.0 == other.0 && self.1 == other.1
    }
}

impl vstd::std_specs::cmp::PartialEqSpecImpl for PackageName {
    open spec fn obeys_eq_spec() -> bool {
        true
    }

    open spec fn eq_spec(&self, other: &Self) -> bool {
        (self.spec_scope() == other.spec_scope()) && (self.spec_name() == other.spec_name())
    }
}

impl FromStr for PackageName {
    type Err = PackageNameError;

    fn from_str(s: &str) -> Result<Self, Self::Err> {
        PackageName::parse(s)
    }
}

/// A package name under some naming scheme. The union is closed: consumers
/// match on capabilities (the part accessors below), never on the variant.
#[derive(Debug, Clone, Eq, Hash, PartialOrd, Ord)]
pub enum PackageNames {
    Pesde(PackageName),
}

impl PackageNames {
    /// The scope part of whichever scheme is held.
    pub open spec fn spec_scope(&self) -> Seq<char> {
        match self {
            PackageNames::Pesde(n) => n.spec_scope(),
        }
    }

    /// The name part of whichever scheme is held.
    pub open spec fn spec_name(&self) -> Seq<char> {
        match self {
            PackageNames::Pesde(n) => n.spec_name(),
        }
    }

    /// The held name is valid under its scheme's grammar.
    pub open spec fn wf(&self) -> bool {
        match self {
            PackageNames::Pesde(n) => n.wf(),
        }
    }

    /// Try each known scheme's parser in a fixed order; the first success
    /// wins. A string that no scheme accepts yields the single aggregate
    /// error, which keeps the raw input but not the fine-grained reason.
    pub fn parse(s: &str) -> (r: Result<PackageNames, PackageNamesError>)
        ensures
            match r {
                Ok(ns) => match ns {
                    PackageNames::Pesde(pn) => scoped_parses(s@) && pn.wf() && pn.spec_scope()
                        == scope_of(s@) && pn.spec_name() == name_of(s@),
                },
                Err(e) => match e {
                    PackageNamesError::InvalidPackageName(orig) => !scoped_parses(s@) && orig@
                        == s@,
                },
            },
    {
        match PackageName::parse(s) {
            Ok(name) => Ok(PackageNames::Pesde(name)),
            Err(_) => Err(PackageNamesError::InvalidPackageName(s.to_owned())),
        }
    }

    /// The two parts, as borrowed strings, in `(scope, name)` order.
    pub fn as_str(&self) -> (r: (&str, &str))
        ensures
            r.0@ == self.spec_scope(),
            r.1@ == self.spec_name(),
    {
        match self {
            PackageNames::Pesde(name) => name.as_str(),
        }
    }

    /// The canonical textual form of the held name.
    pub fn display(&self) -> (r: String)
        ensures
            r@ == joined(self.spec_scope(), self.spec_name(), '/'),
    {
        match self {
            PackageNames::Pesde(name) => name.display(),
        }
    }

    /// The escaped, `/`-free display form of the held name.
    pub fn escaped(&self) -> (r: String)
        ensures
            r@ == joined(self.spec_scope(), self.spec_name(), '+'),
    {
        match self {
            PackageNames::Pesde(name) => name.escaped(),
        }
    }
}

impl PartialEq for PackageNames {
    fn eq(&self, other: &Self) -> (r: bool) {
        match (self, other) {
            (PackageNames::Pesde(a), PackageNames::Pesde(b)) => a == b,
        }
    }
}

impl vstd::std_specs::cmp::PartialEqSpecImpl for PackageNames {
    open spec fn obeys_eq_spec() -> bool {
        true
    }

    open spec fn eq_spec(&self, other: &Self) -> bool {
        (self.spec_scope() == other.spec_scope()) && (self.spec_name() == other.spec_name())
    }
}

impl FromStr for PackageNames {
    type Err = PackageNamesError;

    fn from_str(s: &str) -> Result<Self, Self::Err> {
        PackageNames::parse(s)
    }
}

} // verus!
