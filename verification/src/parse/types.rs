use vstd::prelude::*;

use super::combinators::{
    All, Alt, Delimited, KeyValue, List, Mapped, Permutation, StripWhitespace, Tag, Take, Unquote,
    all2, alt2, delimited, key_value, list, permutation2, strip_whitespace, tag, take, unquote,
};
use super::stdp::{self, NonZeroU32};
use super::{Mapper, Model, Parsable, Parser, outcome_of};

verus! {

pub const AUTHDATA_SIZE: usize = 1024;

// hint: takes quite a lot of stack space
/// Authorization data
#[derive(Debug, Clone, PartialEq, Eq)]
pub struct AuthData(pub [u8; AUTHDATA_SIZE]);

impl Model for AuthData {
    type M = Seq<u8>;

    open spec fn model(&self) -> Seq<u8> {
        self.0@
    }
}

/// Builds [AuthData] from its bytes; bytes of any other count give zeros.
pub struct MakeAuthData;

impl Mapper<Vec<u8>> for MakeAuthData {
    type Out = AuthData;

    open spec fn spec_apply(&self, x: Seq<u8>) -> Seq<u8> {
        if x.len() == AUTHDATA_SIZE {
            x
        } else {
            Seq::new(AUTHDATA_SIZE as nat, |i: int| 0u8)
        }
    }

    fn apply(&self, x: Vec<u8>) -> (r: AuthData) {
        let mut bytes: [u8; AUTHDATA_SIZE] = vstd::array::array_fill_for_copy_types(0u8);
        assert(x.model() =~= x@);
        if x.len() == AUTHDATA_SIZE {
            let mut i: usize = 0;
            while i < AUTHDATA_SIZE
                invariant
                    x@.len() == AUTHDATA_SIZE,
                    i <= AUTHDATA_SIZE,
                    bytes@.len() == AUTHDATA_SIZE,
                    forall|j: int| 0 <= j < i ==> bytes@[j] == x@[j],
                decreases AUTHDATA_SIZE - i,
            {
                bytes[i] = x[i];
                i = i + 1;
            }
            assert(bytes@ =~= x@);
        } else {
            assert(bytes@ =~= Seq::new(AUTHDATA_SIZE as nat, |i: int| 0u8));
        }
        AuthData(bytes)
    }
}

impl Parsable for AuthData {
    type Parser = Mapped<Take<stdp::Byte>, MakeAuthData>;

    open spec fn spec_parser() -> Self::Parser {
        crate::parse::combinators::map(take(AUTHDATA_SIZE, stdp::Byte), MakeAuthData)
    }

    fn parser() -> (p: Self::Parser) {
        crate::parse::combinators::map(take(AUTHDATA_SIZE, stdp::Byte), MakeAuthData)
    }
}

/// An 'either-or' construct
pub enum Either<Left, Right> {
    Left(Left),
    Right(Right),
}

/// A status that can be parsed
pub enum Status {
    Okay,
    Error(String),
}

/// What a [Status] stands for.
pub enum StatusModel {
    Okay,
    Error(Seq<char>),
}

impl Model for Status {
    type M = StatusModel;

    open spec fn model(&self) -> StatusModel {
        match self {
            Status::Okay => StatusModel::Okay,
            Status::Error(e) => StatusModel::Error(e@),
        }
    }
}

/// Gives [`Status::Okay`].
pub struct ToOk;

impl Mapper<()> for ToOk {
    type Out = Status;

    open spec fn spec_apply(&self, x: ()) -> StatusModel {
        StatusModel::Okay
    }

    fn apply(&self, x: ()) -> (r: Status)
        ensures
            r == Status::Okay,
    {
        Status::Okay
    }
}

/// Gives [`Status::Error`] with the message.
pub struct ToErr;

impl Mapper<String> for ToErr {
    type Out = Status;

    open spec fn spec_apply(&self, x: Seq<char>) -> StatusModel {
        StatusModel::Error(x)
    }

    fn apply(&self, x: String) -> (r: Status)
        ensures
            r == Status::Error(x),
    {
        Status::Error(x)
    }
}

impl Parsable for Status {
    type Parser = Alt<(Mapped<Tag, ToOk>, Mapped<Delimited<Tag, Unquote, Tag>, ToErr>)>;

    open spec fn spec_parser() -> Self::Parser {
        alt2(crate::parse::combinators::map(tag("Ok"), ToOk), crate::parse::combinators::map(delimited(tag("Err("), unquote(), tag(")")), ToErr))
    }

    fn parser() -> (p: Self::Parser) {
        alt2(crate::parse::combinators::map(tag("Ok"), ToOk), crate::parse::combinators::map(delimited(tag("Err("), unquote(), tag(")")), ToErr))
    }
}

/// A pair 'short name of an asset' - 'its description'
#[derive(Debug, Clone, PartialEq, Eq)]
pub struct AssetDsc {
    // `dsc` aka `description`
    pub id: String,
    pub dsc: String,
}

/// What an [AssetDsc] stands for.
pub struct AssetDscModel {
    pub id: Seq<char>,
    pub dsc: Seq<char>,
}

impl Model for AssetDsc {
    type M = AssetDscModel;

    open spec fn model(&self) -> AssetDscModel {
        AssetDscModel { id: self.id@, dsc: self.dsc@ }
    }
}

/// Builds an [AssetDsc] from its id and description.
pub struct MakeAssetDsc;

impl Mapper<(String, String)> for MakeAssetDsc {
    type Out = AssetDsc;

    open spec fn spec_apply(&self, x: (Seq<char>, Seq<char>)) -> AssetDscModel {
        AssetDscModel { id: x.0, dsc: x.1 }
    }

    fn apply(&self, x: (String, String)) -> (r: AssetDsc)
        ensures
            (r == AssetDsc { id: x.0, dsc: x.1 }),
    {
        let (id, dsc) = x;
        AssetDsc { id, dsc }
    }
}

impl Parsable for AssetDsc {
    type Parser = Mapped<
        Delimited<
            All<(StripWhitespace<Tag>, StripWhitespace<Tag>)>,
            Permutation<(KeyValue<Unquote>, KeyValue<Unquote>)>,
            StripWhitespace<Tag>,
        >,
        MakeAssetDsc,
    >;

    open spec fn spec_parser() -> Self::Parser {
        crate::parse::combinators::map(
            delimited(
                all2(strip_whitespace(tag("AssetDsc")), strip_whitespace(tag("{"))),
                permutation2(key_value("id", unquote()), key_value("dsc", unquote())),
                strip_whitespace(tag("}")),
            ),
            MakeAssetDsc,
        )
    }

    fn parser() -> (p: Self::Parser) {
        // parser combinators are cool
        crate::parse::combinators::map(
            delimited(
                all2(strip_whitespace(tag("AssetDsc")), strip_whitespace(tag("{"))),
                permutation2(key_value("id", unquote()), key_value("dsc", unquote())),
                strip_whitespace(tag("}")),
            ),
            MakeAssetDsc,
        )
    }
}

/// An asset in some quantity
#[derive(Debug, Clone, PartialEq, Eq)]
pub struct Backet {
    pub asset_id: String,
    pub count: NonZeroU32,
}

/// What a [Backet] stands for.
pub struct BacketModel {
    pub asset_id: Seq<char>,
    pub count: u32,
}

impl Model for Backet {
    type M = BacketModel;

    open spec fn model(&self) -> BacketModel {
        BacketModel { asset_id: self.asset_id@, count: self.count.model() }
    }
}

/// Builds a [Backet] from its asset id and count.
pub struct MakeBacket;

impl Mapper<(String, NonZeroU32)> for MakeBacket {
    type Out = Backet;

    open spec fn spec_apply(&self, x: (Seq<char>, u32)) -> BacketModel {
        BacketModel { asset_id: x.0, count: x.1 }
    }

    fn apply(&self, x: (String, NonZeroU32)) -> (r: Backet)
        ensures
            (r == Backet { asset_id: x.0, count: x.1 }),
    {
        let (asset_id, count) = x;
        Backet { asset_id, count }
    }
}

impl Parsable for Backet {
    type Parser = Mapped<
        Delimited<
            All<(StripWhitespace<Tag>, StripWhitespace<Tag>)>,
            Permutation<(KeyValue<Unquote>, KeyValue<stdp::U32>)>,
            StripWhitespace<Tag>,
        >,
        MakeBacket,
    >;

    open spec fn spec_parser() -> Self::Parser {
        crate::parse::combinators::map(
            delimited(
                all2(strip_whitespace(tag("Backet")), strip_whitespace(tag("{"))),
                permutation2(key_value("asset_id", unquote()), key_value("count", stdp::U32)),
                strip_whitespace(tag("}")),
            ),
            MakeBacket,
        )
    }

    fn parser() -> (p: Self::Parser) {
        crate::parse::combinators::map(
            delimited(
                all2(strip_whitespace(tag("Backet")), strip_whitespace(tag("{"))),
                permutation2(key_value("asset_id", unquote()), key_value("count", stdp::U32)),
                strip_whitespace(tag("}")),
            ),
            MakeBacket,
        )
    }
}

/// The fiat money of one user
#[derive(Debug, Clone, PartialEq, Eq)]
pub struct UserCash {
    pub user_id: String,
    pub count: NonZeroU32,
}

/// What a [UserCash] stands for.
pub struct UserCashModel {
    pub user_id: Seq<char>,
    pub count: u32,
}

impl Model for UserCash {
    type M = UserCashModel;

    open spec fn model(&self) -> UserCashModel {
        UserCashModel { user_id: self.user_id@, count: self.count.model() }
    }
}

/// Builds a [UserCash] from its user id and count.
pub struct MakeUserCash;

impl Mapper<(String, NonZeroU32)> for MakeUserCash {
    type Out = UserCash;

    open spec fn spec_apply(&self, x: (Seq<char>, u32)) -> UserCashModel {
        UserCashModel { user_id: x.0, count: x.1 }
    }

    fn apply(&self, x: (String, NonZeroU32)) -> (r: UserCash)
        ensures
            (r == UserCash { user_id: x.0, count: x.1 }),
    {
        let (user_id, count) = x;
        UserCash { user_id, count }
    }
}

impl Parsable for UserCash {
    type Parser = Mapped<
        Delimited<
            All<(StripWhitespace<Tag>, StripWhitespace<Tag>)>,
            Permutation<(KeyValue<Unquote>, KeyValue<stdp::U32>)>,
            StripWhitespace<Tag>,
        >,
        MakeUserCash,
    >;

    open spec fn spec_parser() -> Self::Parser {
        crate::parse::combinators::map(
            delimited(
                all2(strip_whitespace(tag("UserCash")), strip_whitespace(tag("{"))),
                permutation2(key_value("user_id", unquote()), key_value("count", stdp::U32)),
                strip_whitespace(tag("}")),
            ),
            MakeUserCash,
        )
    }

    fn parser() -> (p: Self::Parser) {
        crate::parse::combinators::map(
            delimited(
                all2(strip_whitespace(tag("UserCash")), strip_whitespace(tag("{"))),
                permutation2(key_value("user_id", unquote()), key_value("count", stdp::U32)),
                strip_whitespace(tag("}")),
            ),
            MakeUserCash,
        )
    }
}

/// The [Backet] of one user
#[derive(Debug, Clone, PartialEq, Eq)]
pub struct UserBacket {
    pub user_id: String,
    pub backet: Backet,
}

/// What a [UserBacket] stands for.
pub struct UserBacketModel {
    pub user_id: Seq<char>,
    pub backet: BacketModel,
}

impl Model for UserBacket {
    type M = UserBacketModel;

    open spec fn model(&self) -> UserBacketModel {
        UserBacketModel { user_id: self.user_id@, backet: self.backet.model() }
    }
}

/// Builds a [UserBacket] from its user id and backet.
pub struct MakeUserBacket;

impl Mapper<(String, Backet)> for MakeUserBacket {
    type Out = UserBacket;

    open spec fn spec_apply(&self, x: (Seq<char>, BacketModel)) -> UserBacketModel {
        UserBacketModel { user_id: x.0, backet: x.1 }
    }

    fn apply(&self, x: (String, Backet)) -> (r: UserBacket)
        ensures
            (r == UserBacket { user_id: x.0, backet: x.1 }),
    {
        let (user_id, backet) = x;
        UserBacket { user_id, backet }
    }
}

impl Parsable for UserBacket {
    type Parser = Mapped<
        Delimited<
            All<(StripWhitespace<Tag>, StripWhitespace<Tag>)>,
            Permutation<(KeyValue<Unquote>, KeyValue<<Backet as Parsable>::Parser>)>,
            StripWhitespace<Tag>,
        >,
        MakeUserBacket,
    >;

    open spec fn spec_parser() -> Self::Parser {
        crate::parse::combinators::map(
            delimited(
                all2(strip_whitespace(tag("UserBacket")), strip_whitespace(tag("{"))),
                permutation2(
                    key_value("user_id", unquote()),
                    key_value("backet", Backet::spec_parser()),
                ),
                strip_whitespace(tag("}")),
            ),
            MakeUserBacket,
        )
    }

    fn parser() -> (p: Self::Parser) {
        crate::parse::combinators::map(
            delimited(
                all2(strip_whitespace(tag("UserBacket")), strip_whitespace(tag("{"))),
                permutation2(key_value("user_id", unquote()), key_value("backet", Backet::parser())),
                strip_whitespace(tag("}")),
            ),
            MakeUserBacket,
        )
    }
}

/// The [backets](Backet) of one user
#[derive(Debug, Clone, PartialEq, Eq)]
pub struct UserBackets {
    pub user_id: String,
    pub backets: Vec<Backet>,
}

/// What a [UserBackets] stands for.
pub struct UserBacketsModel {
    pub user_id: Seq<char>,
    pub backets: Seq<BacketModel>,
}

impl Model for UserBackets {
    type M = UserBacketsModel;

    open spec fn model(&self) -> UserBacketsModel {
        UserBacketsModel { user_id: self.user_id@, backets: self.backets.model() }
    }
}

/// Builds a [UserBackets] from its user id and backets.
pub struct MakeUserBackets;

impl Mapper<(String, Vec<Backet>)> for MakeUserBackets {
    type Out = UserBackets;

    open spec fn spec_apply(&self, x: (Seq<char>, Seq<BacketModel>)) -> UserBacketsModel {
        UserBacketsModel { user_id: x.0, backets: x.1 }
    }

    fn apply(&self, x: (String, Vec<Backet>)) -> (r: UserBackets)
        ensures
            (r == UserBackets { user_id: x.0, backets: x.1 }),
    {
        let (user_id, backets) = x;
        UserBackets { user_id, backets }
    }
}

impl Parsable for UserBackets {
    type Parser = Mapped<
        Delimited<
            All<(StripWhitespace<Tag>, StripWhitespace<Tag>)>,
            Permutation<(KeyValue<Unquote>, KeyValue<List<<Backet as Parsable>::Parser>>)>,
            StripWhitespace<Tag>,
        >,
        MakeUserBackets,
    >;

    open spec fn spec_parser() -> Self::Parser {
        crate::parse::combinators::map(
            delimited(
                all2(strip_whitespace(tag("UserBackets")), strip_whitespace(tag("{"))),
                permutation2(
                    key_value("user_id", unquote()),
                    key_value("backets", list(Backet::spec_parser())),
                ),
                strip_whitespace(tag("}")),
            ),
            MakeUserBackets,
        )
    }

    fn parser() -> (p: Self::Parser) {
        crate::parse::combinators::map(
            delimited(
                all2(strip_whitespace(tag("UserBackets")), strip_whitespace(tag("{"))),
                permutation2(
                    key_value("user_id", unquote()),
                    key_value("backets", list(Backet::parser())),
                ),
                strip_whitespace(tag("}")),
            ),
            MakeUserBackets,
        )
    }
}

/// The list of published backets
#[derive(Debug, Clone, PartialEq, Eq)]
pub struct Announcements(pub Vec<UserBackets>);

impl Model for Announcements {
    type M = Seq<UserBacketsModel>;

    open spec fn model(&self) -> Seq<UserBacketsModel> {
        self.0.model()
    }
}

/// Builds [Announcements] from the list.
pub struct FromVec;

impl Mapper<Vec<UserBackets>> for FromVec {
    type Out = Announcements;

    open spec fn spec_apply(&self, x: Seq<UserBacketsModel>) -> Seq<UserBacketsModel> {
        x
    }

    fn apply(&self, x: Vec<UserBackets>) -> (r: Announcements)
        ensures
            r == Announcements(x),
    {
        Announcements(x)
    }
}

impl Parsable for Announcements {
    type Parser = Mapped<List<<UserBackets as Parsable>::Parser>, FromVec>;

    open spec fn spec_parser() -> Self::Parser {
        crate::parse::combinators::map(list(UserBackets::spec_parser()), FromVec)
    }

    fn parser() -> (p: Self::Parser) {
        crate::parse::combinators::map(list(UserBackets::parser()), FromVec)
    }
}

/// Generic parsing of any [Parsable] type
fn just_parse<T: Parsable>(input: &str) -> (r: Result<(&str, T), ()>)
    ensures
        outcome_of(r) == T::spec_parser().spec_parse(input@),
{
    T::parser().parse(input)
}

// Backward compatibility: the names of the former functions
/// Parses an [AssetDsc] at the start of `input`.
pub fn just_parse_asset_dsc(input: &str) -> (r: Result<(&str, AssetDsc), ()>)
    ensures
        outcome_of(r) == AssetDsc::spec_parser().spec_parse(input@),
{
    just_parse(input)
}

/// Parses a [Backet] at the start of `input`.
pub fn just_parse_backet(input: &str) -> (r: Result<(&str, Backet), ()>)
    ensures
        outcome_of(r) == Backet::spec_parser().spec_parse(input@),
{
    just_parse(input)
}

/// Parses a [UserCash] at the start of `input`.
pub fn just_user_cash(input: &str) -> (r: Result<(&str, UserCash), ()>)
    ensures
        outcome_of(r) == UserCash::spec_parser().spec_parse(input@),
{
    just_parse(input)
}

/// Parses a [UserBacket] at the start of `input`.
pub fn just_user_backet(input: &str) -> (r: Result<(&str, UserBacket), ()>)
    ensures
        outcome_of(r) == UserBacket::spec_parser().spec_parse(input@),
{
    just_parse(input)
}

/// Parses a [UserBackets] at the start of `input`.
pub fn just_user_backets(input: &str) -> (r: Result<(&str, UserBackets), ()>)
    ensures
        outcome_of(r) == UserBackets::spec_parser().spec_parse(input@),
{
    just_parse(input)
}

/// Parses [Announcements] at the start of `input`.
pub fn just_parse_anouncements(input: &str) -> (r: Result<(&str, Announcements), ()>)
    ensures
        outcome_of(r) == Announcements::spec_parser().spec_parse(input@),
{
    just_parse(input)
}

} // verus!
