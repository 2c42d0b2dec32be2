//! A log-severity selector, bound to string tokens and convertible to the
//! tracing library's severity type.

use vstd::prelude::*;

verus! {

/// A user-configurable log severity.
#[derive(Debug, Clone, Copy, PartialEq, Eq, Structural, PartialOrd, Ord, Hash)]
pub enum LogLevelSerdable {
    Trace,
    Debug,
    Info,
    Warn,
    Error,
}

/// Declares tracing::Level, the tracing library's severity type, so that it
/// can stand in signatures. Values of it are opaque to the proofs.
#[verifier::external_type_specification]
#[verifier::external_body]
pub struct ExLevel(tracing::Level);

/// The severity constant of the tracing library at the given position of this
/// crate's binding order: 0 is TRACE, 1 DEBUG, 2 INFO, 3 WARN, 4 ERROR.
pub uninterp spec fn level_of(i: int) -> tracing::Level;

/// Relies on the constant tracing::Level::TRACE, the lowest severity; the
/// five severity constants are pairwise distinct values.
#[verifier::external_body]
fn level_trace() -> (r: tracing::Level)
    ensures
        r == level_of(0),
        forall|i: int| 0 <= i < 5 && i != 0 ==> r != level_of(i),
{
    tracing::Level::TRACE
}

/// Relies on the constant tracing::Level::DEBUG; the five severity constants
/// are pairwise distinct values.
#[verifier::external_body]
fn level_debug() -> (r: tracing::Level)
    ensures
        r == level_of(1),
        forall|i: int| 0 <= i < 5 && i != 1 ==> r != level_of(i),
{
    tracing::Level::DEBUG
}

/// Relies on the constant tracing::Level::INFO; the five severity constants
/// are pairwise distinct values.
#[verifier::external_body]
fn level_info() -> (r: tracing::Level)
    ensures
        r == level_of(2),
        forall|i: int| 0 <= i < 5 && i != 2 ==> r != level_of(i),
{
    tracing::Level::INFO
}

/// Relies on the constant tracing::Level::WARN; the five severity constants
/// are pairwise distinct values.
#[verifier::external_body]
fn level_warn() -> (r: tracing::Level)
    ensures
        r == level_of(3),
        forall|i: int| 0 <= i < 5 && i != 3 ==> r != level_of(i),
{
    tracing::Level::WARN
}

/// Relies on the constant tracing::Level::ERROR, the highest severity; the
/// five severity constants are pairwise distinct values.
#[verifier::external_body]
fn level_error() -> (r: tracing::Level)
    ensures
        r == level_of(4),
        forall|i: int| 0 <= i < 5 && i != 4 ==> r != level_of(i),
{
    tracing::Level::ERROR
}

impl LogLevelSerdable {
    /// Number of declared variants.
    pub const NUM_VARIANTS: usize = 5;

    /// The position of this variant in the binding order.
    pub open spec fn level_index(self) -> int {
        match self {
            LogLevelSerdable::Trace => 0,
            LogLevelSerdable::Debug => 1,
            LogLevelSerdable::Info => 2,
            LogLevelSerdable::Warn => 3,
            LogLevelSerdable::Error => 4,
        }
    }

    /// The token bound to each variant.
    pub open spec fn token_spec(self) -> Seq<char> {
        match self {
            LogLevelSerdable::Trace => "trace"@,
            LogLevelSerdable::Debug => "debug"@,
            LogLevelSerdable::Info => "info"@,
            LogLevelSerdable::Warn => "warn"@,
            LogLevelSerdable::Error => "error"@,
        }
    }

    /// The catalogue of variants, in binding order.
    pub open spec fn variants_spec() -> Seq<LogLevelSerdable> {
        seq![
            LogLevelSerdable::Trace,
            LogLevelSerdable::Debug,
            LogLevelSerdable::Info,
            LogLevelSerdable::Warn,
            LogLevelSerdable::Error,
        ]
    }

    /// The catalogue of tokens, in binding order.
    pub open spec fn tokens_spec() -> Seq<Seq<char>> {
        seq!["trace"@, "debug"@, "info"@, "warn"@, "error"@]
    }

    /// What parsing a string yields: the variant of the first binding whose
    /// token equals the string, or failure when no token does.
    pub open spec fn parse_spec(s: Seq<char>) -> Result<LogLevelSerdable, ()> {
        if s == "trace"@ {
            Ok(LogLevelSerdable::Trace)
        } else if s == "debug"@ {
            Ok(LogLevelSerdable::Debug)
        } else if s == "info"@ {
            Ok(LogLevelSerdable::Info)
        } else if s == "warn"@ {
            Ok(LogLevelSerdable::Warn)
        } else if s == "error"@ {
            Ok(LogLevelSerdable::Error)
        } else {
            Err(())
        }
    }

    /// The token of this variant, as a statically allocated string.
    pub fn as_static_str(&self) -> (r: &'static str)
        ensures
            r@ == self.token_spec(),
    {
        match self {
            LogLevelSerdable::Trace => "trace",
            LogLevelSerdable::Debug => "debug",
            LogLevelSerdable::Info => "info",
            LogLevelSerdable::Warn => "warn",
            LogLevelSerdable::Error => "error",
        }
    }

    /// The variants, in binding order.
    pub fn enum_variants() -> (v: Vec<LogLevelSerdable>)
        ensures
            v@ == Self::variants_spec(),
    {
        let mut v: Vec<LogLevelSerdable> = Vec::new();
        v.push(LogLevelSerdable::Trace);
        v.push(LogLevelSerdable::Debug);
        v.push(LogLevelSerdable::Info);
        v.push(LogLevelSerdable::Warn);
        v.push(LogLevelSerdable::Error);
        proof {
            assert(v@ =~= Self::variants_spec());
        }
        v
    }

    /// The tokens, in binding order, positionally aligned with the variants.
    pub fn enum_variant_strings() -> (v: Vec<&'static str>)
        ensures
            v@.len() == Self::tokens_spec().len(),
            forall|i: int| 0 <= i < v@.len() ==> v@[i]@ == Self::tokens_spec()[i],
    {
        let mut v: Vec<&'static str> = Vec::new();
        v.push("trace");
        v.push("debug");
        v.push("info");
        v.push("warn");
        v.push("error");
        v
    }

    /// Parses a token back into its variant; yields the no-match outcome for
    /// every other string.
    pub fn from_str(s: &str) -> (r: Result<LogLevelSerdable, ()>)
        ensures
            r == Self::parse_spec(s@),
    {
        if crate::str_eq(s, "trace") {
            Ok(LogLevelSerdable::Trace)
        } else if crate::str_eq(s, "debug") {
            Ok(LogLevelSerdable::Debug)
        } else if crate::str_eq(s, "info") {
            Ok(LogLevelSerdable::Info)
        } else if crate::str_eq(s, "warn") {
            Ok(LogLevelSerdable::Warn)
        } else if crate::str_eq(s, "error") {
            Ok(LogLevelSerdable::Error)
        } else {
            Err(())
        }
    }

    /// Renders the variant as text: exactly its token, nothing more.
    pub fn render(&self) -> (r: String)
        ensures
            r@ == self.token_spec(),
    {
        self.as_static_str().to_owned()
    }

    /// The equivalent severity of the tracing library: the constant at this
    /// variant's position of the binding order, and none of the other four.
    /// The dispatch over the variants is checked here; the constants
    /// themselves are the tracing library's.
    pub fn to_tracing(&self) -> (r: tracing::Level)
        ensures
            r == level_of(self.level_index()),
            forall|i: int| 0 <= i < 5 && i != self.level_index() ==> r != level_of(i),
    {
        match self {
            LogLevelSerdable::Trace => level_trace(),
            LogLevelSerdable::Debug => level_debug(),
            LogLevelSerdable::Info => level_info(),
            LogLevelSerdable::Warn => level_warn(),
            LogLevelSerdable::Error => level_error(),
        }
    }

    /// Every variant appears in the catalogue exactly once, and the declared
    /// count equals the catalogue's length.
    pub proof fn lemma_variants_complete()
        ensures
            Self::variants_spec().len() == Self::NUM_VARIANTS,
            forall|v: LogLevelSerdable| #[trigger] Self::variants_spec().contains(v),
            forall|i: int, j: int|
                0 <= i < Self::variants_spec().len() && 0 <= j < Self::variants_spec().len()
                    && Self::variants_spec()[i] == Self::variants_spec()[j] ==> i == j,
    {
        assert forall|v: LogLevelSerdable| #[trigger] Self::variants_spec().contains(v) by {
            match v {
                LogLevelSerdable::Trace => assert(Self::variants_spec()[0] == v),
                LogLevelSerdable::Debug => assert(Self::variants_spec()[1] == v),
                LogLevelSerdable::Info => assert(Self::variants_spec()[2] == v),
                LogLevelSerdable::Warn => assert(Self::variants_spec()[3] == v),
                LogLevelSerdable::Error => assert(Self::variants_spec()[4] == v),
            }
        }
    }

    /// The two catalogues are positionally aligned: the token of the variant
    /// at any index is the token at the same index.
    pub proof fn lemma_catalogue_aligned()
        ensures
            Self::variants_spec().len() == Self::tokens_spec().len(),
            forall|i: int|
                0 <= i < Self::variants_spec().len()
                    ==> Self::variants_spec()[i].token_spec() == Self::tokens_spec()[i],
    {
        assert forall|i: int| 0 <= i < Self::variants_spec().len()
            implies Self::variants_spec()[i].token_spec() == Self::tokens_spec()[i] by {
            assert(Self::variants_spec()[0].token_spec() == Self::tokens_spec()[0]);
            assert(Self::variants_spec()[1].token_spec() == Self::tokens_spec()[1]);
            assert(Self::variants_spec()[2].token_spec() == Self::tokens_spec()[2]);
            assert(Self::variants_spec()[3].token_spec() == Self::tokens_spec()[3]);
            assert(Self::variants_spec()[4].token_spec() == Self::tokens_spec()[4]);
        }
    }

    /// Round trip: parsing the token of any variant yields that variant back.
    pub proof fn lemma_round_trip(v: LogLevelSerdable)
        ensures
            Self::parse_spec(v.token_spec()) == Ok::<LogLevelSerdable, ()>(v),
    {
        reveal_strlit("trace");
        reveal_strlit("debug");
        reveal_strlit("info");
        reveal_strlit("warn");
        reveal_strlit("error");
        assert("trace"@[0] == 't');
        assert("debug"@[0] == 'd');
        assert("info"@[0] == 'i');
        assert("warn"@[0] == 'w');
        assert("error"@[0] == 'e');
    }
}

impl Default for LogLevelSerdable {
    /// The default severity is `Warn`.
    fn default() -> (r: Self)
        ensures
            r == LogLevelSerdable::Warn,
    {
        LogLevelSerdable::Warn
    }
}

} // verus!
