//! Two small example enumerations showing the binding pattern: one with a
//! rendering operation, one deliberately without any.

use vstd::prelude::*;

verus! {

/// A two-variant example with rendering enabled.
#[derive(Debug, Clone, Copy, PartialEq, Eq, Structural, PartialOrd, Ord, Hash)]
pub enum MyEnum {
    Foo,
    Bar,
}

impl MyEnum {
    /// Number of declared variants.
    pub const NUM_VARIANTS: usize = 2;

    /// The token bound to each variant.
    pub open spec fn token_spec(self) -> Seq<char> {
        match self {
            MyEnum::Foo => "foo"@,
            MyEnum::Bar => "bar"@,
        }
    }

    /// The catalogue of variants, in binding order.
    pub open spec fn variants_spec() -> Seq<MyEnum> {
        seq![MyEnum::Foo, MyEnum::Bar]
    }

    /// The catalogue of tokens, in binding order.
    pub open spec fn tokens_spec() -> Seq<Seq<char>> {
        seq!["foo"@, "bar"@]
    }

    /// What parsing a string yields: the variant of the first binding whose
    /// token equals the string, or failure when no token does.
    pub open spec fn parse_spec(s: Seq<char>) -> Result<MyEnum, ()> {
        if s == "foo"@ {
            Ok(MyEnum::Foo)
        } else if s == "bar"@ {
            Ok(MyEnum::Bar)
        } else {
            Err(())
        }
    }

    /// The token of this variant, as a statically allocated string.
    pub fn as_static_str(&self) -> (r: &'static str)
        ensures
            r@ == self.token_spec(),
    {
        match self {
            MyEnum::Foo => "foo",
            MyEnum::Bar => "bar",
        }
    }

    /// The variants, in binding order.
    pub fn enum_variants() -> (v: Vec<MyEnum>)
        ensures
            v@ == Self::variants_spec(),
    {
        let mut v: Vec<MyEnum> = Vec::new();
        v.push(MyEnum::Foo);
        v.push(MyEnum::Bar);
        proof {
            assert(v@ =~= Self::variants_spec());
        }
        v
    }

    /// The tokens, in binding order, positionally aligned with the variants.
    pub fn enum_variant_strings() -> (v: Vec<&'static str>)
        ensures
            v@.len() == Self::tokens_spec().len(),
            forall|i: int| 0 <= i < v@.len() ==> v@[i]@ == Self::tokens_spec()[i],
    {
        let mut v: Vec<&'static str> = Vec::new();
        v.push("foo");
        v.push("bar");
        v
    }

    /// Parses a token back into its variant; yields the no-match outcome for
    /// every other string.
    pub fn from_str(s: &str) -> (r: Result<MyEnum, ()>)
        ensures
            r == Self::parse_spec(s@),
    {
        if crate::str_eq(s, "foo") {
            Ok(MyEnum::Foo)
        } else if crate::str_eq(s, "bar") {
            Ok(MyEnum::Bar)
        } else {
            Err(())
        }
    }

    /// Renders the variant as text: exactly its token, nothing more.
    pub fn render(&self) -> (r: String)
        ensures
            r@ == self.token_spec(),
    {
        self.as_static_str().to_owned()
    }

    /// Every variant appears in the catalogue exactly once, and the declared
    /// count equals the catalogue's length.
    pub proof fn lemma_variants_complete()
        ensures
            Self::variants_spec().len() == Self::NUM_VARIANTS,
            forall|v: MyEnum| #[trigger] Self::variants_spec().contains(v),
            forall|i: int, j: int|
                0 <= i < Self::variants_spec().len() && 0 <= j < Self::variants_spec().len()
                    && Self::variants_spec()[i] == Self::variants_spec()[j] ==> i == j,
    {
        assert forall|v: MyEnum| #[trigger] Self::variants_spec().contains(v) by {
            match v {
                MyEnum::Foo => assert(Self::variants_spec()[0] == v),
                MyEnum::Bar => assert(Self::variants_spec()[1] == v),
            }
        }
    }

    /// The two catalogues are positionally aligned: the token of the variant
    /// at any index is the token at the same index.
    pub proof fn lemma_catalogue_aligned()
        ensures
            Self::variants_spec().len() == Self::tokens_spec().len(),
            forall|i: int|
                0 <= i < Self::variants_spec().len()
                    ==> Self::variants_spec()[i].token_spec() == Self::tokens_spec()[i],
    {
        assert forall|i: int| 0 <= i < Self::variants_spec().len()
            implies Self::variants_spec()[i].token_spec() == Self::tokens_spec()[i] by {
            assert(Self::variants_spec()[0].token_spec() == Self::tokens_spec()[0]);
            assert(Self::variants_spec()[1].token_spec() == Self::tokens_spec()[1]);
        }
    }

    /// Round trip: parsing the token of any variant yields that variant back.
    pub proof fn lemma_round_trip(v: MyEnum)
        ensures
            Self::parse_spec(v.token_spec()) == Ok::<MyEnum, ()>(v),
    {
        reveal_strlit("foo");
        reveal_strlit("bar");
        assert("foo"@[0] == 'f');
        assert("bar"@[0] == 'b');
    }
}

/// A three-variant example without any rendering operation: the catalogue and
/// the two conversions still exist.
#[derive(Debug, Clone, Copy, PartialEq, Eq, Structural, PartialOrd, Ord, Hash)]
pub enum NoDisplayEnum {
    Baz,
    Quux,
    OtherGibberish,
}

impl NoDisplayEnum {
    /// Number of declared variants.
    pub const NUM_VARIANTS: usize = 3;

    /// The token bound to each variant.
    pub open spec fn token_spec(self) -> Seq<char> {
        match self {
            NoDisplayEnum::Baz => "baz"@,
            NoDisplayEnum::Quux => "quux"@,
            NoDisplayEnum::OtherGibberish => "other-gibberish"@,
        }
    }

    /// The catalogue of variants, in binding order.
    pub open spec fn variants_spec() -> Seq<NoDisplayEnum> {
        seq![NoDisplayEnum::Baz, NoDisplayEnum::Quux, NoDisplayEnum::OtherGibberish]
    }

    /// The catalogue of tokens, in binding order.
    pub open spec fn tokens_spec() -> Seq<Seq<char>> {
        seq!["baz"@, "quux"@, "other-gibberish"@]
    }

    /// What parsing a string yields: the variant of the first binding whose
    /// token equals the string, or failure when no token does.
    pub open spec fn parse_spec(s: Seq<char>) -> Result<NoDisplayEnum, ()> {
        if s == "baz"@ {
            Ok(NoDisplayEnum::Baz)
        } else if s == "quux"@ {
            Ok(NoDisplayEnum::Quux)
        } else if s == "other-gibberish"@ {
            Ok(NoDisplayEnum::OtherGibberish)
        } else {
            Err(())
        }
    }

    /// The token of this variant, as a statically allocated string.
    pub fn as_static_str(&self) -> (r: &'static str)
        ensures
            r@ == self.token_spec(),
    {
        match self {
            NoDisplayEnum::Baz => "baz",
            NoDisplayEnum::Quux => "quux",
            NoDisplayEnum::OtherGibberish => "other-gibberish",
        }
    }

    /// The variants, in binding order.
    pub fn enum_variants() -> (v: Vec<NoDisplayEnum>)
        ensures
            v@ == Self::variants_spec(),
    {
        let mut v: Vec<NoDisplayEnum> = Vec::new();
        v.push(NoDisplayEnum::Baz);
        v.push(NoDisplayEnum::Quux);
        v.push(NoDisplayEnum::OtherGibberish);
        proof {
            assert(v@ =~= Self::variants_spec());
        }
        v
    }

    /// The tokens, in binding order, positionally aligned with the variants.
    pub fn enum_variant_strings() -> (v: Vec<&'static str>)
        ensures
            v@.len() == Self::tokens_spec().len(),
            forall|i: int| 0 <= i < v@.len() ==> v@[i]@ == Self::tokens_spec()[i],
    {
        let mut v: Vec<&'static str> = Vec::new();
        v.push("baz");
        v.push("quux");
        v.push("other-gibberish");
        v
    }

    /// Parses a token back into its variant; yields the no-match outcome for
    /// every other string.
    pub fn from_str(s: &str) -> (r: Result<NoDisplayEnum, ()>)
        ensures
            r == Self::parse_spec(s@),
    {
        if crate::str_eq(s, "baz") {
            Ok(NoDisplayEnum::Baz)
        } else if crate::str_eq(s, "quux") {
            Ok(NoDisplayEnum::Quux)
        } else if crate::str_eq(s, "other-gibberish") {
            Ok(NoDisplayEnum::OtherGibberish)
        } else {
            Err(())
        }
    }

    /// Every variant appears in the catalogue exactly once, and the declared
    /// count equals the catalogue's length.
    pub proof fn lemma_variants_complete()
        ensures
            Self::variants_spec().len() == Self::NUM_VARIANTS,
            forall|v: NoDisplayEnum| #[trigger] Self::variants_spec().contains(v),
            forall|i: int, j: int|
                0 <= i < Self::variants_spec().len() && 0 <= j < Self::variants_spec().len()
                    && Self::variants_spec()[i] == Self::variants_spec()[j] ==> i == j,
    {
        assert forall|v: NoDisplayEnum| #[trigger] Self::variants_spec().contains(v) by {
            match v {
                NoDisplayEnum::Baz => assert(Self::variants_spec()[0] == v),
                NoDisplayEnum::Quux => assert(Self::variants_spec()[1] == v),
                NoDisplayEnum::OtherGibberish => assert(Self::variants_spec()[2] == v),
            }
        }
    }

    /// The two catalogues are positionally aligned: the token of the variant
    /// at any index is the token at the same index.
    pub proof fn lemma_catalogue_aligned()
        ensures
            Self::variants_spec().len() == Self::tokens_spec().len(),
            forall|i: int|
                0 <= i < Self::variants_spec().len()
                    ==> Self::variants_spec()[i].token_spec() == Self::tokens_spec()[i],
    {
        assert forall|i: int| 0 <= i < Self::variants_spec().len()
            implies Self::variants_spec()[i].token_spec() == Self::tokens_spec()[i] by {
            assert(Self::variants_spec()[0].token_spec() == Self::tokens_spec()[0]);
            assert(Self::variants_spec()[1].token_spec() == Self::tokens_spec()[1]);
            assert(Self::variants_spec()[2].token_spec() == Self::tokens_spec()[2]);
        }
    }

    /// Round trip: parsing the token of any variant yields that variant back.
    pub proof fn lemma_round_trip(v: NoDisplayEnum)
        ensures
            Self::parse_spec(v.token_spec()) == Ok::<NoDisplayEnum, ()>(v),
    {
        reveal_strlit("baz");
        reveal_strlit("quux");
        reveal_strlit("other-gibberish");
        assert("baz"@.len() == 3);
        assert("quux"@.len() == 4);
        assert("other-gibberish"@.len() == 15);
    }
}

} // verus!
