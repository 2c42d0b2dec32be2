//! A tri-state selector for terminal color output, bound to string tokens.

use vstd::prelude::*;

verus! {

/// Whether ansi colors should be used on an output stream.
#[derive(Debug, Clone, Copy, PartialEq, Eq, Structural, PartialOrd, Ord, Hash)]
pub enum Color {
    /// Always use colors
    Always,
    /// Autodetect color support
    Auto,
    /// Never use colors
    Never,
}

impl Color {
    /// Number of declared variants.
    pub const NUM_VARIANTS: usize = 3;

    /// The token bound to each variant.
    pub open spec fn token_spec(self) -> Seq<char> {
        match self {
            Color::Always => "always"@,
            Color::Auto => "auto"@,
            Color::Never => "never"@,
        }
    }

    /// The catalogue of variants, in binding order.
    pub open spec fn variants_spec() -> Seq<Color> {
        seq![Color::Always, Color::Auto, Color::Never]
    }

    /// The catalogue of tokens, in binding order.
    pub open spec fn tokens_spec() -> Seq<Seq<char>> {
        seq!["always"@, "auto"@, "never"@]
    }

    /// What parsing a string yields: the variant of the first binding whose
    /// token equals the string, or failure when no token does.
    pub open spec fn parse_spec(s: Seq<char>) -> Result<Color, ()> {
        if s == "always"@ {
            Ok(Color::Always)
        } else if s == "auto"@ {
            Ok(Color::Auto)
        } else if s == "never"@ {
            Ok(Color::Never)
        } else {
            Err(())
        }
    }

    /// The token of this variant, as a statically allocated string.
    pub fn as_static_str(&self) -> (r: &'static str)
        ensures
            r@ == self.token_spec(),
    {
        match self {
            Color::Always => "always",
            Color::Auto => "auto",
            Color::Never => "never",
        }
    }

    /// The variants, in binding order.
    pub fn enum_variants() -> (v: Vec<Color>)
        ensures
            v@ == Self::variants_spec(),
    {
        let mut v: Vec<Color> = Vec::new();
        v.push(Color::Always);
        v.push(Color::Auto);
        v.push(Color::Never);
        proof {
            assert(v@ =~= Self::variants_spec());
        }
        v
    }

    /// The tokens, in binding order, positionally aligned with the variants.
    pub fn enum_variant_strings() -> (v: Vec<&'static str>)
        ensures
            v@.len() == Self::tokens_spec().len(),
            forall|i: int| 0 <= i < v@.len() ==> v@[i]@ == Self::tokens_spec()[i],
    {
        let mut v: Vec<&'static str> = Vec::new();
        v.push("always");
        v.push("auto");
        v.push("never");
        v
    }

    /// Parses a token back into its variant; yields the no-match outcome for
    /// every other string.
    pub fn from_str(s: &str) -> (r: Result<Color, ()>)
        ensures
            r == Self::parse_spec(s@),
    {
        if crate::str_eq(s, "always") {
            Ok(Color::Always)
        } else if crate::str_eq(s, "auto") {
            Ok(Color::Auto)
        } else if crate::str_eq(s, "never") {
            Ok(Color::Never)
        } else {
            Err(())
        }
    }

    /// Renders the variant as text: exactly its token, nothing more.
    pub fn render(&self) -> (r: String)
        ensures
            r@ == self.token_spec(),
    {
        self.as_static_str().to_owned()
    }

    /// Decides whether to emit color, given whether the stream is a terminal.
    pub open spec fn detect_spec(self, is_terminal: bool) -> bool {
        match self {
            Color::Always => true,
            Color::Auto => is_terminal,
            Color::Never => false,
        }
    }

    /// Color policy: `Always` yields true, `Never` false, and `Auto` defers
    /// to whether the stream is a terminal.
    pub fn detect(&self, is_terminal: bool) -> (r: bool)
        ensures
            r == self.detect_spec(is_terminal),
    {
        match self {
            Color::Always => true,
            Color::Auto => is_terminal,
            Color::Never => false,
        }
    }

    /// Every variant appears in the catalogue exactly once, and the declared
    /// count equals the catalogue's length.
    pub proof fn lemma_variants_complete()
        ensures
            Self::variants_spec().len() == Self::NUM_VARIANTS,
            forall|v: Color| #[trigger] Self::variants_spec().contains(v),
            forall|i: int, j: int|
                0 <= i < Self::variants_spec().len() && 0 <= j < Self::variants_spec().len()
                    && Self::variants_spec()[i] == Self::variants_spec()[j] ==> i == j,
    {
        assert forall|v: Color| #[trigger] Self::variants_spec().contains(v) by {
            match v {
                Color::Always => assert(Self::variants_spec()[0] == v),
                Color::Auto => assert(Self::variants_spec()[1] == v),
                Color::Never => assert(Self::variants_spec()[2] == v),
            }
        }
    }

    /// The two catalogues are positionally aligned: the token of the variant
    /// at any index is the token at the same index.
    pub proof fn lemma_catalogue_aligned()
        ensures
            Self::variants_spec().len() == Self::tokens_spec().len(),
            forall|i: int|
                0 <= i < Self::variants_spec().len()
                    ==> Self::variants_spec()[i].token_spec() == Self::tokens_spec()[i],
    {
        assert forall|i: int| 0 <= i < Self::variants_spec().len()
            implies Self::variants_spec()[i].token_spec() == Self::tokens_spec()[i] by {
            assert(Self::variants_spec()[0].token_spec() == Self::tokens_spec()[0]);
            assert(Self::variants_spec()[1].token_spec() == Self::tokens_spec()[1]);
            assert(Self::variants_spec()[2].token_spec() == Self::tokens_spec()[2]);
        }
    }

    /// Round trip: parsing the token of any variant yields that variant back.
    pub proof fn lemma_round_trip(v: Color)
        ensures
            Self::parse_spec(v.token_spec()) == Ok::<Color, ()>(v),
    {
        reveal_strlit("always");
        reveal_strlit("auto");
        reveal_strlit("never");
        assert("always"@.len() == 6);
        assert("auto"@.len() == 4);
        assert("never"@.len() == 5);
    }
}

impl Default for Color {
    /// The default mode autodetects color support.
    fn default() -> (r: Self)
        ensures
            r == Color::Auto,
    {
        Color::Auto
    }
}

} // verus!
