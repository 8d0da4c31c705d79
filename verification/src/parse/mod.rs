pub mod text;
pub mod combinators;
pub mod stdp;
pub mod types;
pub mod log_types;
pub mod laws;

use vstd::prelude::*;

verus! {

/// A spec value that stands for a parsed value: what contracts say a parser
/// produced.
pub trait Model {
    type M;

    spec fn model(&self) -> Self::M;
}

impl Model for () {
    type M = ();

    open spec fn model(&self) -> () {
        ()
    }
}

impl Model for u8 {
    type M = u8;

    open spec fn model(&self) -> u8 {
        *self
    }
}

impl Model for String {
    type M = Seq<char>;

    open spec fn model(&self) -> Seq<char> {
        self@
    }
}

impl<T: Model> Model for Vec<T> {
    type M = Seq<T::M>;

    open spec fn model(&self) -> Seq<T::M> {
        self@.map_values(|x: T| x.model())
    }
}

impl<A0: Model, A1: Model> Model for (A0, A1) {
    type M = (A0::M, A1::M);

    open spec fn model(&self) -> (A0::M, A1::M) {
        (self.0.model(), self.1.model())
    }
}

impl<A0: Model, A1: Model, A2: Model> Model for (A0, A1, A2) {
    type M = (A0::M, A1::M, A2::M);

    open spec fn model(&self) -> (A0::M, A1::M, A2::M) {
        (self.0.model(), self.1.model(), self.2.model())
    }
}

impl<A0: Model, A1: Model, A2: Model, A3: Model> Model for (A0, A1, A2, A3) {
    type M = (A0::M, A1::M, A2::M, A3::M);

    open spec fn model(&self) -> (A0::M, A1::M, A2::M, A3::M) {
        (self.0.model(), self.1.model(), self.2.model(), self.3.model())
    }
}

/// What a parser run gives back, as the contracts speak of it: `None` for a
/// refused input, else the text left over and the model of the value.
pub open spec fn outcome_of<'a, D: Model>(r: Result<(&'a str, D), ()>) -> Option<(Seq<char>, D::M)> {
    match r {
        Ok((rest, d)) => Some((rest@, d.model())),
        Err(()) => None,
    }
}

/// A parser of text: it reads a prefix of its input and gives back the rest
/// together with a value, or refuses the input.
pub trait Parser {
    type Dest: Model;

    /// What the parser does with an input.
    spec fn spec_parse(&self, input: Seq<char>) -> Option<(Seq<char>, <Self::Dest as Model>::M)>;

    /// The text left over is a suffix of the input.
    proof fn lemma_parse_suffix(&self, input: Seq<char>)
        ensures
            self.spec_parse(input) matches Some((rest, _)) ==> rest.is_suffix_of(input),
    ;

    fn parse<'a>(&self, input: &'a str) -> (r: Result<(&'a str, Self::Dest), ()>)
        ensures
            outcome_of(r) == self.spec_parse(input@),
    ;
}

/// A type with a parser of its own.
pub trait Parsable: Sized + Model {
    type Parser: Parser<Dest = Self>;

    /// The parser that [`Parsable::parser`] builds.
    spec fn spec_parser() -> Self::Parser;

    fn parser() -> (p: Self::Parser)
        ensures
            p == Self::spec_parser(),
    ;
}

/// A function from parsed values to other values, the one that [`Mapped`]
/// applies to what its inner parser produced.
///
/// [`Mapped`]: combinators::Mapped
pub trait Mapper<In: Model> {
    type Out: Model;

    /// What the function gives for a value, by models.
    spec fn spec_apply(&self, x: In::M) -> <Self::Out as Model>::M;

    fn apply(&self, x: In) -> (r: Self::Out)
        ensures
            r.model() == self.spec_apply(x.model()),
    ;
}

} // verus!
