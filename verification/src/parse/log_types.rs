use vstd::prelude::*;

use super::combinators::{
    All, Alt, Delimited, KeyValue, Mapped, Permutation, Preceded, StripWhitespace, Tag, Unquote,
    all2, alt2, alt3, alt4, alt8, delimited, key_value, permutation2, permutation3, preceded,
    strip_whitespace, tag, unquote,
};
use super::stdp::{self, NonZeroU32};
use super::types::{
    Announcements, AuthData, UserBacket, UserBacketModel, UserBacketsModel, UserCash,
    UserCashModel,
};
use super::{Mapper, Model, Parsable};

verus! {

/// All kinds of logs
#[derive(Debug, Clone, PartialEq, Eq)]
pub enum LogKind {
    System(SystemLogKind),
    App(AppLogKind),
}

/// What a [LogKind] stands for.
pub enum LogKindModel {
    System(SystemLogKindModel),
    App(AppLogKindModel),
}

impl Model for LogKind {
    type M = LogKindModel;

    open spec fn model(&self) -> LogKindModel {
        match self {
            LogKind::System(v) => LogKindModel::System(v.model()),
            LogKind::App(v) => LogKindModel::App(v.model()),
        }
    }
}

/// All kinds of [system](LogKind) logs
#[derive(Debug, Clone, PartialEq, Eq)]
pub enum SystemLogKind {
    Error(SystemLogErrorKind),
    Trace(SystemLogTraceKind),
}

/// What a [SystemLogKind] stands for.
pub enum SystemLogKindModel {
    Error(SystemLogErrorKindModel),
    Trace(SystemLogTraceKindModel),
}

impl Model for SystemLogKind {
    type M = SystemLogKindModel;

    open spec fn model(&self) -> SystemLogKindModel {
        match self {
            SystemLogKind::Error(v) => SystemLogKindModel::Error(v.model()),
            SystemLogKind::Trace(v) => SystemLogKindModel::Trace(v.model()),
        }
    }
}

/// Trace of the [system](SystemLogKind)
#[derive(Debug, Clone, PartialEq, Eq)]
pub enum SystemLogTraceKind {
    SendRequest(String),
    GetResponse(String),
}

/// What a [SystemLogTraceKind] stands for.
pub enum SystemLogTraceKindModel {
    SendRequest(Seq<char>),
    GetResponse(Seq<char>),
}

impl Model for SystemLogTraceKind {
    type M = SystemLogTraceKindModel;

    open spec fn model(&self) -> SystemLogTraceKindModel {
        match self {
            SystemLogTraceKind::SendRequest(v) => SystemLogTraceKindModel::SendRequest(v@),
            SystemLogTraceKind::GetResponse(v) => SystemLogTraceKindModel::GetResponse(v@),
        }
    }
}

/// Error of the [system](SystemLogKind)
#[derive(Debug, Clone, PartialEq, Eq)]
pub enum SystemLogErrorKind {
    NetworkError(String),
    AccessDenied(String),
}

/// What a [SystemLogErrorKind] stands for.
pub enum SystemLogErrorKindModel {
    NetworkError(Seq<char>),
    AccessDenied(Seq<char>),
}

impl Model for SystemLogErrorKind {
    type M = SystemLogErrorKindModel;

    open spec fn model(&self) -> SystemLogErrorKindModel {
        match self {
            SystemLogErrorKind::NetworkError(v) => SystemLogErrorKindModel::NetworkError(v@),
            SystemLogErrorKind::AccessDenied(v) => SystemLogErrorKindModel::AccessDenied(v@),
        }
    }
}

/// All kinds of [application](LogKind) logs
#[derive(Debug, Clone, PartialEq, Eq)]
pub enum AppLogKind {
    Error(AppLogErrorKind),
    Trace(AppLogTraceKind),
    Journal(AppLogJournalKind),
}

/// What a [AppLogKind] stands for.
pub enum AppLogKindModel {
    Error(AppLogErrorKindModel),
    Trace(AppLogTraceKindModel),
    Journal(AppLogJournalKindModel),
}

impl Model for AppLogKind {
    type M = AppLogKindModel;

    open spec fn model(&self) -> AppLogKindModel {
        match self {
            AppLogKind::Error(v) => AppLogKindModel::Error(v.model()),
            AppLogKind::Trace(v) => AppLogKindModel::Trace(v.model()),
            AppLogKind::Journal(v) => AppLogKindModel::Journal(v.model()),
        }
    }
}

/// Error of the [application](AppLogKind)
#[derive(Debug, Clone, PartialEq, Eq)]
pub enum AppLogErrorKind {
    LackOf(String),
    SystemError(String),
}

/// What a [AppLogErrorKind] stands for.
pub enum AppLogErrorKindModel {
    LackOf(Seq<char>),
    SystemError(Seq<char>),
}

impl Model for AppLogErrorKind {
    type M = AppLogErrorKindModel;

    open spec fn model(&self) -> AppLogErrorKindModel {
        match self {
            AppLogErrorKind::LackOf(v) => AppLogErrorKindModel::LackOf(v@),
            AppLogErrorKind::SystemError(v) => AppLogErrorKindModel::SystemError(v@),
        }
    }
}

/// Trace of the [application](AppLogKind)
#[derive(Debug, Clone, PartialEq, Eq)]
pub enum AppLogTraceKind {
    Connect(Box<AuthData>),
    SendRequest(String),
    Check(Announcements),
    GetResponse(String),
}

/// What a [AppLogTraceKind] stands for.
pub enum AppLogTraceKindModel {
    Connect(Seq<u8>),
    SendRequest(Seq<char>),
    Check(Seq<UserBacketsModel>),
    GetResponse(Seq<char>),
}

impl Model for AppLogTraceKind {
    type M = AppLogTraceKindModel;

    open spec fn model(&self) -> AppLogTraceKindModel {
        match self {
            AppLogTraceKind::Connect(v) => AppLogTraceKindModel::Connect(v.model()),
            AppLogTraceKind::SendRequest(v) => AppLogTraceKindModel::SendRequest(v@),
            AppLogTraceKind::Check(v) => AppLogTraceKindModel::Check(v.model()),
            AppLogTraceKind::GetResponse(v) => AppLogTraceKindModel::GetResponse(v@),
        }
    }
}

/// Creation of a user
#[derive(Debug, Clone, PartialEq, Eq)]
pub struct CreateUser {
    pub user_id: String,
    pub authorized_capital: NonZeroU32,
}

/// What a [CreateUser] stands for.
pub struct CreateUserModel {
    pub user_id: Seq<char>,
    pub authorized_capital: u32,
}

impl Model for CreateUser {
    type M = CreateUserModel;

    open spec fn model(&self) -> CreateUserModel {
        CreateUserModel { user_id: self.user_id@, authorized_capital: self.authorized_capital.model() }
    }
}

/// Deletion of a user
#[derive(Debug, Clone, PartialEq, Eq)]
pub struct DeleteUser {
    pub user_id: String,
}

/// What a [DeleteUser] stands for.
pub struct DeleteUserModel {
    pub user_id: Seq<char>,
}

impl Model for DeleteUser {
    type M = DeleteUserModel;

    open spec fn model(&self) -> DeleteUserModel {
        DeleteUserModel { user_id: self.user_id@ }
    }
}

/// Registration of an asset
#[derive(Debug, Clone, PartialEq, Eq)]
pub struct RegisterAsset {
    pub asset_id: String,
    pub user_id: String,
    pub liquidity: NonZeroU32,
}

/// What a [RegisterAsset] stands for.
pub struct RegisterAssetModel {
    pub asset_id: Seq<char>,
    pub user_id: Seq<char>,
    pub liquidity: u32,
}

impl Model for RegisterAsset {
    type M = RegisterAssetModel;

    open spec fn model(&self) -> RegisterAssetModel {
        RegisterAssetModel { asset_id: self.asset_id@, user_id: self.user_id@, liquidity: self.liquidity.model() }
    }
}

/// Cancellation of the registration of an asset
#[derive(Debug, Clone, PartialEq, Eq)]
pub struct UnregisterAsset {
    pub asset_id: String,
    pub user_id: String,
}

/// What a [UnregisterAsset] stands for.
pub struct UnregisterAssetModel {
    pub asset_id: Seq<char>,
    pub user_id: Seq<char>,
}

impl Model for UnregisterAsset {
    type M = UnregisterAssetModel;

    open spec fn model(&self) -> UnregisterAssetModel {
        UnregisterAssetModel { asset_id: self.asset_id@, user_id: self.user_id@ }
    }
}

/// Journal of the [application](AppLogKind), the highest-level events
#[derive(Debug, Clone, PartialEq, Eq)]
pub enum AppLogJournalKind {
    CreateUser(CreateUser),
    DeleteUser(DeleteUser),
    RegisterAsset(RegisterAsset),
    UnregisterAsset(UnregisterAsset),
    DepositCash(UserCash),
    WithdrawCash(UserCash),
    BuyAsset(UserBacket),
    SellAsset(UserBacket),
}

/// What a [AppLogJournalKind] stands for.
pub enum AppLogJournalKindModel {
    CreateUser(CreateUserModel),
    DeleteUser(DeleteUserModel),
    RegisterAsset(RegisterAssetModel),
    UnregisterAsset(UnregisterAssetModel),
    DepositCash(UserCashModel),
    WithdrawCash(UserCashModel),
    BuyAsset(UserBacketModel),
    SellAsset(UserBacketModel),
}

impl Model for AppLogJournalKind {
    type M = AppLogJournalKindModel;

    open spec fn model(&self) -> AppLogJournalKindModel {
        match self {
            AppLogJournalKind::CreateUser(v) => AppLogJournalKindModel::CreateUser(v.model()),
            AppLogJournalKind::DeleteUser(v) => AppLogJournalKindModel::DeleteUser(v.model()),
            AppLogJournalKind::RegisterAsset(v) => AppLogJournalKindModel::RegisterAsset(v.model()),
            AppLogJournalKind::UnregisterAsset(v) => AppLogJournalKindModel::UnregisterAsset(v.model()),
            AppLogJournalKind::DepositCash(v) => AppLogJournalKindModel::DepositCash(v.model()),
            AppLogJournalKind::WithdrawCash(v) => AppLogJournalKindModel::WithdrawCash(v.model()),
            AppLogJournalKind::BuyAsset(v) => AppLogJournalKindModel::BuyAsset(v.model()),
            AppLogJournalKind::SellAsset(v) => AppLogJournalKindModel::SellAsset(v.model()),
        }
    }
}

/// Gives [`SystemLogErrorKind::NetworkError`].
pub struct AsNetworkError;

impl Mapper<String> for AsNetworkError {
    type Out = SystemLogErrorKind;

    open spec fn spec_apply(&self, x: Seq<char>) -> SystemLogErrorKindModel {
        SystemLogErrorKindModel::NetworkError(x)
    }

    fn apply(&self, x: String) -> (r: SystemLogErrorKind)
        ensures
            r == SystemLogErrorKind::NetworkError(x),
    {
        SystemLogErrorKind::NetworkError(x)
    }
}

/// Gives [`SystemLogErrorKind::AccessDenied`].
pub struct AsAccessDenied;

impl Mapper<String> for AsAccessDenied {
    type Out = SystemLogErrorKind;

    open spec fn spec_apply(&self, x: Seq<char>) -> SystemLogErrorKindModel {
        SystemLogErrorKindModel::AccessDenied(x)
    }

    fn apply(&self, x: String) -> (r: SystemLogErrorKind)
        ensures
            r == SystemLogErrorKind::AccessDenied(x),
    {
        SystemLogErrorKind::AccessDenied(x)
    }
}

impl Parsable for SystemLogErrorKind {
    type Parser = Preceded<
        Tag,
        Alt<(Mapped<Preceded<StripWhitespace<Tag>, StripWhitespace<Unquote>>, AsNetworkError>, Mapped<Preceded<StripWhitespace<Tag>, StripWhitespace<Unquote>>, AsAccessDenied>)>,
    >;

    open spec fn spec_parser() -> Self::Parser {
        preceded(
            tag("Error"),
            alt2(
                crate::parse::combinators::map(
                    preceded(strip_whitespace(tag("NetworkError")), strip_whitespace(unquote())),
                    AsNetworkError,
                ),
                crate::parse::combinators::map(
                    preceded(strip_whitespace(tag("AccessDenied")), strip_whitespace(unquote())),
                    AsAccessDenied,
                ),
            ),
        )
    }

    fn parser() -> (p: Self::Parser) {
        preceded(
            tag("Error"),
            alt2(
                crate::parse::combinators::map(
                    preceded(strip_whitespace(tag("NetworkError")), strip_whitespace(unquote())),
                    AsNetworkError,
                ),
                crate::parse::combinators::map(
                    preceded(strip_whitespace(tag("AccessDenied")), strip_whitespace(unquote())),
                    AsAccessDenied,
                ),
            ),
        )
    }
}

/// Gives [`SystemLogTraceKind::SendRequest`].
pub struct AsSystemSendRequest;

impl Mapper<String> for AsSystemSendRequest {
    type Out = SystemLogTraceKind;

    open spec fn spec_apply(&self, x: Seq<char>) -> SystemLogTraceKindModel {
        SystemLogTraceKindModel::SendRequest(x)
    }

    fn apply(&self, x: String) -> (r: SystemLogTraceKind)
        ensures
            r == SystemLogTraceKind::SendRequest(x),
    {
        SystemLogTraceKind::SendRequest(x)
    }
}

/// Gives [`SystemLogTraceKind::GetResponse`].
pub struct AsSystemGetResponse;

impl Mapper<String> for AsSystemGetResponse {
    type Out = SystemLogTraceKind;

    open spec fn spec_apply(&self, x: Seq<char>) -> SystemLogTraceKindModel {
        SystemLogTraceKindModel::GetResponse(x)
    }

    fn apply(&self, x: String) -> (r: SystemLogTraceKind)
        ensures
            r == SystemLogTraceKind::GetResponse(x),
    {
        SystemLogTraceKind::GetResponse(x)
    }
}

impl Parsable for SystemLogTraceKind {
    type Parser = Preceded<
        Tag,
        Alt<(Mapped<Preceded<StripWhitespace<Tag>, StripWhitespace<Unquote>>, AsSystemSendRequest>, Mapped<Preceded<StripWhitespace<Tag>, StripWhitespace<Unquote>>, AsSystemGetResponse>)>,
    >;

    open spec fn spec_parser() -> Self::Parser {
        preceded(
            tag("Trace"),
            alt2(
                crate::parse::combinators::map(
                    preceded(strip_whitespace(tag("SendRequest")), strip_whitespace(unquote())),
                    AsSystemSendRequest,
                ),
                crate::parse::combinators::map(
                    preceded(strip_whitespace(tag("GetResponse")), strip_whitespace(unquote())),
                    AsSystemGetResponse,
                ),
            ),
        )
    }

    fn parser() -> (p: Self::Parser) {
        preceded(
            tag("Trace"),
            alt2(
                crate::parse::combinators::map(
                    preceded(strip_whitespace(tag("SendRequest")), strip_whitespace(unquote())),
                    AsSystemSendRequest,
                ),
                crate::parse::combinators::map(
                    preceded(strip_whitespace(tag("GetResponse")), strip_whitespace(unquote())),
                    AsSystemGetResponse,
                ),
            ),
        )
    }
}

/// Gives [`SystemLogKind::Trace`].
pub struct AsSystemTrace;

impl Mapper<SystemLogTraceKind> for AsSystemTrace {
    type Out = SystemLogKind;

    open spec fn spec_apply(&self, x: SystemLogTraceKindModel) -> SystemLogKindModel {
        SystemLogKindModel::Trace(x)
    }

    fn apply(&self, x: SystemLogTraceKind) -> (r: SystemLogKind)
        ensures
            r == SystemLogKind::Trace(x),
    {
        SystemLogKind::Trace(x)
    }
}

/// Gives [`SystemLogKind::Error`].
pub struct AsSystemError;

impl Mapper<SystemLogErrorKind> for AsSystemError {
    type Out = SystemLogKind;

    open spec fn spec_apply(&self, x: SystemLogErrorKindModel) -> SystemLogKindModel {
        SystemLogKindModel::Error(x)
    }

    fn apply(&self, x: SystemLogErrorKind) -> (r: SystemLogKind)
        ensures
            r == SystemLogKind::Error(x),
    {
        SystemLogKind::Error(x)
    }
}

impl Parsable for SystemLogKind {
    type Parser = StripWhitespace<
        Preceded<
            Tag,
            Alt<
                (
                    Mapped<<SystemLogTraceKind as Parsable>::Parser, AsSystemTrace>,
                    Mapped<<SystemLogErrorKind as Parsable>::Parser, AsSystemError>,
                ),
            >,
        >,
    >;

    open spec fn spec_parser() -> Self::Parser {
        strip_whitespace(
            preceded(
                tag("System::"),
                alt2(
                    crate::parse::combinators::map(SystemLogTraceKind::spec_parser(), AsSystemTrace),
                    crate::parse::combinators::map(SystemLogErrorKind::spec_parser(), AsSystemError),
                ),
            ),
        )
    }

    fn parser() -> (p: Self::Parser) {
        strip_whitespace(
            preceded(
                tag("System::"),
                alt2(
                    crate::parse::combinators::map(SystemLogTraceKind::parser(), AsSystemTrace),
                    crate::parse::combinators::map(SystemLogErrorKind::parser(), AsSystemError),
                ),
            ),
        )
    }
}

/// Gives [`AppLogErrorKind::LackOf`].
pub struct AsLackOf;

impl Mapper<String> for AsLackOf {
    type Out = AppLogErrorKind;

    open spec fn spec_apply(&self, x: Seq<char>) -> AppLogErrorKindModel {
        AppLogErrorKindModel::LackOf(x)
    }

    fn apply(&self, x: String) -> (r: AppLogErrorKind)
        ensures
            r == AppLogErrorKind::LackOf(x),
    {
        AppLogErrorKind::LackOf(x)
    }
}

/// Gives [`AppLogErrorKind::SystemError`].
pub struct AsAppSystemError;

impl Mapper<String> for AsAppSystemError {
    type Out = AppLogErrorKind;

    open spec fn spec_apply(&self, x: Seq<char>) -> AppLogErrorKindModel {
        AppLogErrorKindModel::SystemError(x)
    }

    fn apply(&self, x: String) -> (r: AppLogErrorKind)
        ensures
            r == AppLogErrorKind::SystemError(x),
    {
        AppLogErrorKind::SystemError(x)
    }
}

impl Parsable for AppLogErrorKind {
    type Parser = Preceded<
        Tag,
        Alt<(Mapped<Preceded<StripWhitespace<Tag>, StripWhitespace<Unquote>>, AsLackOf>, Mapped<Preceded<StripWhitespace<Tag>, StripWhitespace<Unquote>>, AsAppSystemError>)>,
    >;

    open spec fn spec_parser() -> Self::Parser {
        preceded(
            tag("Error"),
            alt2(
                crate::parse::combinators::map(
                    preceded(strip_whitespace(tag("LackOf")), strip_whitespace(unquote())),
                    AsLackOf,
                ),
                crate::parse::combinators::map(
                    preceded(strip_whitespace(tag("SystemError")), strip_whitespace(unquote())),
                    AsAppSystemError,
                ),
            ),
        )
    }

    fn parser() -> (p: Self::Parser) {
        preceded(
            tag("Error"),
            alt2(
                crate::parse::combinators::map(
                    preceded(strip_whitespace(tag("LackOf")), strip_whitespace(unquote())),
                    AsLackOf,
                ),
                crate::parse::combinators::map(
                    preceded(strip_whitespace(tag("SystemError")), strip_whitespace(unquote())),
                    AsAppSystemError,
                ),
            ),
        )
    }
}

/// Gives [`AppLogTraceKind::Connect`].
pub struct AsConnect;

impl Mapper<AuthData> for AsConnect {
    type Out = AppLogTraceKind;

    open spec fn spec_apply(&self, x: Seq<u8>) -> AppLogTraceKindModel {
        AppLogTraceKindModel::Connect(x)
    }

    fn apply(&self, x: AuthData) -> (r: AppLogTraceKind)
        ensures
            r == AppLogTraceKind::Connect(Box::new(x)),
    {
        AppLogTraceKind::Connect(Box::new(x))
    }
}

/// Gives [`AppLogTraceKind::SendRequest`].
pub struct AsAppSendRequest;

impl Mapper<String> for AsAppSendRequest {
    type Out = AppLogTraceKind;

    open spec fn spec_apply(&self, x: Seq<char>) -> AppLogTraceKindModel {
        AppLogTraceKindModel::SendRequest(x)
    }

    fn apply(&self, x: String) -> (r: AppLogTraceKind)
        ensures
            r == AppLogTraceKind::SendRequest(x),
    {
        AppLogTraceKind::SendRequest(x)
    }
}

/// Gives [`AppLogTraceKind::Check`].
pub struct AsCheck;

impl Mapper<Announcements> for AsCheck {
    type Out = AppLogTraceKind;

    open spec fn spec_apply(&self, x: Seq<UserBacketsModel>) -> AppLogTraceKindModel {
        AppLogTraceKindModel::Check(x)
    }

    fn apply(&self, x: Announcements) -> (r: AppLogTraceKind)
        ensures
            r == AppLogTraceKind::Check(x),
    {
        AppLogTraceKind::Check(x)
    }
}

/// Gives [`AppLogTraceKind::GetResponse`].
pub struct AsAppGetResponse;

impl Mapper<String> for AsAppGetResponse {
    type Out = AppLogTraceKind;

    open spec fn spec_apply(&self, x: Seq<char>) -> AppLogTraceKindModel {
        AppLogTraceKindModel::GetResponse(x)
    }

    fn apply(&self, x: String) -> (r: AppLogTraceKind)
        ensures
            r == AppLogTraceKind::GetResponse(x),
    {
        AppLogTraceKind::GetResponse(x)
    }
}

impl Parsable for AppLogTraceKind {
    type Parser = Preceded<
        Tag,
        Alt<
            (
                Mapped<
                    Preceded<StripWhitespace<Tag>, StripWhitespace<<AuthData as Parsable>::Parser>>,
                    AsConnect,
                >,
                Mapped<Preceded<StripWhitespace<Tag>, StripWhitespace<Unquote>>, AsAppSendRequest>,
                Mapped<
                    Preceded<
                        StripWhitespace<Tag>,
                        StripWhitespace<<Announcements as Parsable>::Parser>,
                    >,
                    AsCheck,
                >,
                Mapped<Preceded<StripWhitespace<Tag>, StripWhitespace<Unquote>>, AsAppGetResponse>,
            ),
        >,
    >;

    open spec fn spec_parser() -> Self::Parser {
        preceded(
            tag("Trace"),
            alt4(
                crate::parse::combinators::map(
                    preceded(strip_whitespace(tag("Connect")), strip_whitespace(AuthData::spec_parser())),
                    AsConnect,
                ),
                crate::parse::combinators::map(
                    preceded(strip_whitespace(tag("SendRequest")), strip_whitespace(unquote())),
                    AsAppSendRequest,
                ),
                crate::parse::combinators::map(
                    preceded(
                        strip_whitespace(tag("Check")),
                        strip_whitespace(Announcements::spec_parser()),
                    ),
                    AsCheck,
                ),
                crate::parse::combinators::map(
                    preceded(strip_whitespace(tag("GetResponse")), strip_whitespace(unquote())),
                    AsAppGetResponse,
                ),
            ),
        )
    }

    fn parser() -> (p: Self::Parser) {
        preceded(
            tag("Trace"),
            alt4(
                crate::parse::combinators::map(
                    preceded(strip_whitespace(tag("Connect")), strip_whitespace(AuthData::parser())),
                    AsConnect,
                ),
                crate::parse::combinators::map(
                    preceded(strip_whitespace(tag("SendRequest")), strip_whitespace(unquote())),
                    AsAppSendRequest,
                ),
                crate::parse::combinators::map(
                    preceded(
                        strip_whitespace(tag("Check")),
                        strip_whitespace(Announcements::parser()),
                    ),
                    AsCheck,
                ),
                crate::parse::combinators::map(
                    preceded(strip_whitespace(tag("GetResponse")), strip_whitespace(unquote())),
                    AsAppGetResponse,
                ),
            ),
        )
    }
}

/// Builds a [CreateUser] from its user id and authorized capital.
pub struct MakeCreateUser;

impl Mapper<(String, NonZeroU32)> for MakeCreateUser {
    type Out = CreateUser;

    open spec fn spec_apply(&self, x: (Seq<char>, u32)) -> CreateUserModel {
        CreateUserModel { user_id: x.0, authorized_capital: x.1 }
    }

    fn apply(&self, x: (String, NonZeroU32)) -> (r: CreateUser)
        ensures
            (r == CreateUser { user_id: x.0, authorized_capital: x.1 }),
    {
        let (user_id, authorized_capital) = x;
        CreateUser { user_id, authorized_capital }
    }
}

impl Parsable for CreateUser {
    type Parser = Mapped<
        Delimited<Tag, Permutation<(KeyValue<Unquote>, KeyValue<stdp::U32>)>, Tag>,
        MakeCreateUser,
    >;

    open spec fn spec_parser() -> Self::Parser {
        crate::parse::combinators::map(
            delimited(
                tag("{"),
                permutation2(
                    key_value("user_id", unquote()),
                    key_value("authorized_capital", stdp::U32),
                ),
                tag("}"),
            ),
            MakeCreateUser,
        )
    }

    fn parser() -> (p: Self::Parser) {
        crate::parse::combinators::map(
            delimited(
                tag("{"),
                permutation2(
                    key_value("user_id", unquote()),
                    key_value("authorized_capital", stdp::U32),
                ),
                tag("}"),
            ),
            MakeCreateUser,
        )
    }
}

/// Builds a [DeleteUser] from its user id.
pub struct MakeDeleteUser;

impl Mapper<String> for MakeDeleteUser {
    type Out = DeleteUser;

    open spec fn spec_apply(&self, x: Seq<char>) -> DeleteUserModel {
        DeleteUserModel { user_id: x }
    }

    fn apply(&self, x: String) -> (r: DeleteUser)
        ensures
            (r == DeleteUser { user_id: x }),
    {
        DeleteUser { user_id: x }
    }
}

impl Parsable for DeleteUser {
    type Parser = Mapped<Delimited<Tag, KeyValue<Unquote>, Tag>, MakeDeleteUser>;

    open spec fn spec_parser() -> Self::Parser {
        crate::parse::combinators::map(delimited(tag("{"), key_value("user_id", unquote()), tag("}")), MakeDeleteUser)
    }

    fn parser() -> (p: Self::Parser) {
        crate::parse::combinators::map(delimited(tag("{"), key_value("user_id", unquote()), tag("}")), MakeDeleteUser)
    }
}

/// Builds a [RegisterAsset] from its asset id, user id and liquidity.
pub struct MakeRegisterAsset;

impl Mapper<(String, String, NonZeroU32)> for MakeRegisterAsset {
    type Out = RegisterAsset;

    open spec fn spec_apply(&self, x: (Seq<char>, Seq<char>, u32)) -> RegisterAssetModel {
        RegisterAssetModel { asset_id: x.0, user_id: x.1, liquidity: x.2 }
    }

    fn apply(&self, x: (String, String, NonZeroU32)) -> (r: RegisterAsset)
        ensures
            (r == RegisterAsset { asset_id: x.0, user_id: x.1, liquidity: x.2 }),
    {
        let (asset_id, user_id, liquidity) = x;
        RegisterAsset { asset_id, user_id, liquidity }
    }
}

impl Parsable for RegisterAsset {
    type Parser = Mapped<
        Delimited<
            Tag,
            Permutation<(KeyValue<Unquote>, KeyValue<Unquote>, KeyValue<stdp::U32>)>,
            Tag,
        >,
        MakeRegisterAsset,
    >;

    open spec fn spec_parser() -> Self::Parser {
        crate::parse::combinators::map(
            delimited(
                tag("{"),
                permutation3(
                    key_value("asset_id", unquote()),
                    key_value("user_id", unquote()),
                    key_value("liquidity", stdp::U32),
                ),
                tag("}"),
            ),
            MakeRegisterAsset,
        )
    }

    fn parser() -> (p: Self::Parser) {
        crate::parse::combinators::map(
            delimited(
                tag("{"),
                permutation3(
                    key_value("asset_id", unquote()),
                    key_value("user_id", unquote()),
                    key_value("liquidity", stdp::U32),
                ),
                tag("}"),
            ),
            MakeRegisterAsset,
        )
    }
}

/// Builds an [UnregisterAsset] from its asset id and user id.
pub struct MakeUnregisterAsset;

impl Mapper<(String, String)> for MakeUnregisterAsset {
    type Out = UnregisterAsset;

    open spec fn spec_apply(&self, x: (Seq<char>, Seq<char>)) -> UnregisterAssetModel {
        UnregisterAssetModel { asset_id: x.0, user_id: x.1 }
    }

    fn apply(&self, x: (String, String)) -> (r: UnregisterAsset)
        ensures
            (r == UnregisterAsset { asset_id: x.0, user_id: x.1 }),
    {
        let (asset_id, user_id) = x;
        UnregisterAsset { asset_id, user_id }
    }
}

impl Parsable for UnregisterAsset {
    type Parser = Mapped<
        Delimited<Tag, Permutation<(KeyValue<Unquote>, KeyValue<Unquote>)>, Tag>,
        MakeUnregisterAsset,
    >;

    open spec fn spec_parser() -> Self::Parser {
        crate::parse::combinators::map(
            delimited(
                tag("{"),
                permutation2(key_value("asset_id", unquote()), key_value("user_id", unquote())),
                tag("}"),
            ),
            MakeUnregisterAsset,
        )
    }

    fn parser() -> (p: Self::Parser) {
        crate::parse::combinators::map(
            delimited(
                tag("{"),
                permutation2(key_value("asset_id", unquote()), key_value("user_id", unquote())),
                tag("}"),
            ),
            MakeUnregisterAsset,
        )
    }
}

/// Gives [`AppLogJournalKind::CreateUser`].
pub struct AsCreateUser;

impl Mapper<CreateUser> for AsCreateUser {
    type Out = AppLogJournalKind;

    open spec fn spec_apply(&self, x: CreateUserModel) -> AppLogJournalKindModel {
        AppLogJournalKindModel::CreateUser(x)
    }

    fn apply(&self, x: CreateUser) -> (r: AppLogJournalKind)
        ensures
            r == AppLogJournalKind::CreateUser(x),
    {
        AppLogJournalKind::CreateUser(x)
    }
}

/// Gives [`AppLogJournalKind::DeleteUser`].
pub struct AsDeleteUser;

impl Mapper<DeleteUser> for AsDeleteUser {
    type Out = AppLogJournalKind;

    open spec fn spec_apply(&self, x: DeleteUserModel) -> AppLogJournalKindModel {
        AppLogJournalKindModel::DeleteUser(x)
    }

    fn apply(&self, x: DeleteUser) -> (r: AppLogJournalKind)
        ensures
            r == AppLogJournalKind::DeleteUser(x),
    {
        AppLogJournalKind::DeleteUser(x)
    }
}

/// Gives [`AppLogJournalKind::RegisterAsset`].
pub struct AsRegisterAsset;

impl Mapper<RegisterAsset> for AsRegisterAsset {
    type Out = AppLogJournalKind;

    open spec fn spec_apply(&self, x: RegisterAssetModel) -> AppLogJournalKindModel {
        AppLogJournalKindModel::RegisterAsset(x)
    }

    fn apply(&self, x: RegisterAsset) -> (r: AppLogJournalKind)
        ensures
            r == AppLogJournalKind::RegisterAsset(x),
    {
        AppLogJournalKind::RegisterAsset(x)
    }
}

/// Gives [`AppLogJournalKind::UnregisterAsset`].
pub struct AsUnregisterAsset;

impl Mapper<UnregisterAsset> for AsUnregisterAsset {
    type Out = AppLogJournalKind;

    open spec fn spec_apply(&self, x: UnregisterAssetModel) -> AppLogJournalKindModel {
        AppLogJournalKindModel::UnregisterAsset(x)
    }

    fn apply(&self, x: UnregisterAsset) -> (r: AppLogJournalKind)
        ensures
            r == AppLogJournalKind::UnregisterAsset(x),
    {
        AppLogJournalKind::UnregisterAsset(x)
    }
}

/// Gives [`AppLogJournalKind::DepositCash`].
pub struct AsDepositCash;

impl Mapper<UserCash> for AsDepositCash {
    type Out = AppLogJournalKind;

    open spec fn spec_apply(&self, x: UserCashModel) -> AppLogJournalKindModel {
        AppLogJournalKindModel::DepositCash(x)
    }

    fn apply(&self, x: UserCash) -> (r: AppLogJournalKind)
        ensures
            r == AppLogJournalKind::DepositCash(x),
    {
        AppLogJournalKind::DepositCash(x)
    }
}

/// Gives [`AppLogJournalKind::WithdrawCash`].
pub struct AsWithdrawCash;

impl Mapper<UserCash> for AsWithdrawCash {
    type Out = AppLogJournalKind;

    open spec fn spec_apply(&self, x: UserCashModel) -> AppLogJournalKindModel {
        AppLogJournalKindModel::WithdrawCash(x)
    }

    fn apply(&self, x: UserCash) -> (r: AppLogJournalKind)
        ensures
            r == AppLogJournalKind::WithdrawCash(x),
    {
        AppLogJournalKind::WithdrawCash(x)
    }
}

/// Gives [`AppLogJournalKind::BuyAsset`].
pub struct AsBuyAsset;

impl Mapper<UserBacket> for AsBuyAsset {
    type Out = AppLogJournalKind;

    open spec fn spec_apply(&self, x: UserBacketModel) -> AppLogJournalKindModel {
        AppLogJournalKindModel::BuyAsset(x)
    }

    fn apply(&self, x: UserBacket) -> (r: AppLogJournalKind)
        ensures
            r == AppLogJournalKind::BuyAsset(x),
    {
        AppLogJournalKind::BuyAsset(x)
    }
}

/// Gives [`AppLogJournalKind::SellAsset`].
pub struct AsSellAsset;

impl Mapper<UserBacket> for AsSellAsset {
    type Out = AppLogJournalKind;

    open spec fn spec_apply(&self, x: UserBacketModel) -> AppLogJournalKindModel {
        AppLogJournalKindModel::SellAsset(x)
    }

    fn apply(&self, x: UserBacket) -> (r: AppLogJournalKind)
        ensures
            r == AppLogJournalKind::SellAsset(x),
    {
        AppLogJournalKind::SellAsset(x)
    }
}

impl Parsable for AppLogJournalKind {
    type Parser = Preceded<
        Tag,
        Alt<
            (
                Mapped<Preceded<StripWhitespace<Tag>, <CreateUser as Parsable>::Parser>, AsCreateUser>,
                Mapped<Preceded<StripWhitespace<Tag>, <DeleteUser as Parsable>::Parser>, AsDeleteUser>,
                Mapped<Preceded<StripWhitespace<Tag>, <RegisterAsset as Parsable>::Parser>, AsRegisterAsset>,
                Mapped<Preceded<StripWhitespace<Tag>, <UnregisterAsset as Parsable>::Parser>, AsUnregisterAsset>,
                Mapped<Preceded<StripWhitespace<Tag>, <UserCash as Parsable>::Parser>, AsDepositCash>,
                Mapped<Preceded<StripWhitespace<Tag>, <UserCash as Parsable>::Parser>, AsWithdrawCash>,
                Mapped<Preceded<StripWhitespace<Tag>, <UserBacket as Parsable>::Parser>, AsBuyAsset>,
                Mapped<Preceded<StripWhitespace<Tag>, <UserBacket as Parsable>::Parser>, AsSellAsset>,
            ),
        >,
    >;

    open spec fn spec_parser() -> Self::Parser {
        preceded(
            tag("Journal"),
            alt8(
                crate::parse::combinators::map(preceded(strip_whitespace(tag("CreateUser")), CreateUser::spec_parser()), AsCreateUser),
                crate::parse::combinators::map(preceded(strip_whitespace(tag("DeleteUser")), DeleteUser::spec_parser()), AsDeleteUser),
                crate::parse::combinators::map(preceded(strip_whitespace(tag("RegisterAsset")), RegisterAsset::spec_parser()), AsRegisterAsset),
                crate::parse::combinators::map(preceded(strip_whitespace(tag("UnregisterAsset")), UnregisterAsset::spec_parser()), AsUnregisterAsset),
                crate::parse::combinators::map(preceded(strip_whitespace(tag("DepositCash")), UserCash::spec_parser()), AsDepositCash),
                crate::parse::combinators::map(preceded(strip_whitespace(tag("WithdrawCash")), UserCash::spec_parser()), AsWithdrawCash),
                crate::parse::combinators::map(preceded(strip_whitespace(tag("BuyAsset")), UserBacket::spec_parser()), AsBuyAsset),
                crate::parse::combinators::map(preceded(strip_whitespace(tag("SellAsset")), UserBacket::spec_parser()), AsSellAsset),
            ),
        )
    }

    fn parser() -> (p: Self::Parser) {
        preceded(
            tag("Journal"),
            alt8(
                crate::parse::combinators::map(preceded(strip_whitespace(tag("CreateUser")), CreateUser::parser()), AsCreateUser),
                crate::parse::combinators::map(preceded(strip_whitespace(tag("DeleteUser")), DeleteUser::parser()), AsDeleteUser),
                crate::parse::combinators::map(preceded(strip_whitespace(tag("RegisterAsset")), RegisterAsset::parser()), AsRegisterAsset),
                crate::parse::combinators::map(preceded(strip_whitespace(tag("UnregisterAsset")), UnregisterAsset::parser()), AsUnregisterAsset),
                crate::parse::combinators::map(preceded(strip_whitespace(tag("DepositCash")), UserCash::parser()), AsDepositCash),
                crate::parse::combinators::map(preceded(strip_whitespace(tag("WithdrawCash")), UserCash::parser()), AsWithdrawCash),
                crate::parse::combinators::map(preceded(strip_whitespace(tag("BuyAsset")), UserBacket::parser()), AsBuyAsset),
                crate::parse::combinators::map(preceded(strip_whitespace(tag("SellAsset")), UserBacket::parser()), AsSellAsset),
            ),
        )
    }
}

/// Gives [`AppLogKind::Error`].
pub struct AsAppError;

impl Mapper<AppLogErrorKind> for AsAppError {
    type Out = AppLogKind;

    open spec fn spec_apply(&self, x: AppLogErrorKindModel) -> AppLogKindModel {
        AppLogKindModel::Error(x)
    }

    fn apply(&self, x: AppLogErrorKind) -> (r: AppLogKind)
        ensures
            r == AppLogKind::Error(x),
    {
        AppLogKind::Error(x)
    }
}

/// Gives [`AppLogKind::Trace`].
pub struct AsAppTrace;

impl Mapper<AppLogTraceKind> for AsAppTrace {
    type Out = AppLogKind;

    open spec fn spec_apply(&self, x: AppLogTraceKindModel) -> AppLogKindModel {
        AppLogKindModel::Trace(x)
    }

    fn apply(&self, x: AppLogTraceKind) -> (r: AppLogKind)
        ensures
            r == AppLogKind::Trace(x),
    {
        AppLogKind::Trace(x)
    }
}

/// Gives [`AppLogKind::Journal`].
pub struct AsAppJournal;

impl Mapper<AppLogJournalKind> for AsAppJournal {
    type Out = AppLogKind;

    open spec fn spec_apply(&self, x: AppLogJournalKindModel) -> AppLogKindModel {
        AppLogKindModel::Journal(x)
    }

    fn apply(&self, x: AppLogJournalKind) -> (r: AppLogKind)
        ensures
            r == AppLogKind::Journal(x),
    {
        AppLogKind::Journal(x)
    }
}

impl Parsable for AppLogKind {
    type Parser = StripWhitespace<
        Preceded<
            Tag,
            Alt<
                (
                    Mapped<<AppLogErrorKind as Parsable>::Parser, AsAppError>,
                    Mapped<<AppLogTraceKind as Parsable>::Parser, AsAppTrace>,
                    Mapped<<AppLogJournalKind as Parsable>::Parser, AsAppJournal>,
                ),
            >,
        >,
    >;

    open spec fn spec_parser() -> Self::Parser {
        strip_whitespace(
            preceded(
                tag("App::"),
                alt3(
                    crate::parse::combinators::map(AppLogErrorKind::spec_parser(), AsAppError),
                    crate::parse::combinators::map(AppLogTraceKind::spec_parser(), AsAppTrace),
                    crate::parse::combinators::map(AppLogJournalKind::spec_parser(), AsAppJournal),
                ),
            ),
        )
    }

    fn parser() -> (p: Self::Parser) {
        strip_whitespace(
            preceded(
                tag("App::"),
                alt3(
                    crate::parse::combinators::map(AppLogErrorKind::parser(), AsAppError),
                    crate::parse::combinators::map(AppLogTraceKind::parser(), AsAppTrace),
                    crate::parse::combinators::map(AppLogJournalKind::parser(), AsAppJournal),
                ),
            ),
        )
    }
}

/// Gives [`LogKind::System`].
pub struct AsSystem;

impl Mapper<SystemLogKind> for AsSystem {
    type Out = LogKind;

    open spec fn spec_apply(&self, x: SystemLogKindModel) -> LogKindModel {
        LogKindModel::System(x)
    }

    fn apply(&self, x: SystemLogKind) -> (r: LogKind)
        ensures
            r == LogKind::System(x),
    {
        LogKind::System(x)
    }
}

/// Gives [`LogKind::App`].
pub struct AsApp;

impl Mapper<AppLogKind> for AsApp {
    type Out = LogKind;

    open spec fn spec_apply(&self, x: AppLogKindModel) -> LogKindModel {
        LogKindModel::App(x)
    }

    fn apply(&self, x: AppLogKind) -> (r: LogKind)
        ensures
            r == LogKind::App(x),
    {
        LogKind::App(x)
    }
}

impl Parsable for LogKind {
    type Parser = StripWhitespace<
        Alt<
            (
                Mapped<<SystemLogKind as Parsable>::Parser, AsSystem>,
                Mapped<<AppLogKind as Parsable>::Parser, AsApp>,
            ),
        >,
    >;

    open spec fn spec_parser() -> Self::Parser {
        strip_whitespace(
            alt2(crate::parse::combinators::map(SystemLogKind::spec_parser(), AsSystem), crate::parse::combinators::map(AppLogKind::spec_parser(), AsApp)),
        )
    }

    fn parser() -> (p: Self::Parser) {
        strip_whitespace(
            alt2(crate::parse::combinators::map(SystemLogKind::parser(), AsSystem), crate::parse::combinators::map(AppLogKind::parser(), AsApp)),
        )
    }
}

/// A log line: a [log](AppLogKind) with a `request_id`
#[derive(Debug, Clone, PartialEq, Eq)]
pub struct LogLine {
    pub kind: LogKind,
    pub request_id: NonZeroU32,
}

/// What a [LogLine] stands for.
pub struct LogLineModel {
    pub kind: LogKindModel,
    pub request_id: u32,
}

impl Model for LogLine {
    type M = LogLineModel;

    open spec fn model(&self) -> LogLineModel {
        LogLineModel { kind: self.kind.model(), request_id: self.request_id.model() }
    }
}

/// Builds a [LogLine] from its kind and request id.
pub struct MakeLogLine;

impl Mapper<(LogKind, NonZeroU32)> for MakeLogLine {
    type Out = LogLine;

    open spec fn spec_apply(&self, x: (LogKindModel, u32)) -> LogLineModel {
        LogLineModel { kind: x.0, request_id: x.1 }
    }

    fn apply(&self, x: (LogKind, NonZeroU32)) -> (r: LogLine)
        ensures
            (r == LogLine { kind: x.0, request_id: x.1 }),
    {
        let (kind, request_id) = x;
        LogLine { kind, request_id }
    }
}

impl Parsable for LogLine {
    type Parser = Mapped<
        All<(<LogKind as Parsable>::Parser, StripWhitespace<Preceded<Tag, stdp::U32>>)>,
        MakeLogLine,
    >;

    open spec fn spec_parser() -> Self::Parser {
        crate::parse::combinators::map(
            all2(
                LogKind::spec_parser(),
                strip_whitespace(preceded(tag("requestid="), stdp::U32)),
            ),
            MakeLogLine,
        )
    }

    fn parser() -> (p: Self::Parser) {
        crate::parse::combinators::map(
            all2(
                LogKind::parser(),
                strip_whitespace(preceded(tag("requestid="), stdp::U32)),
            ),
            MakeLogLine,
        )
    }
}

} // verus!
