use vstd::prelude::*;

verus! {

/// The number of keys in the settings catalog.
pub const SETTING_COUNT: usize = 69;

/// The type of the value that a catalog key holds.
#[derive(Clone, Copy, Debug, PartialEq, Eq, Structural)]
pub enum ValueKind {
    Bool,
    U8,
    U32,
    U64,
    Usize,
    Text,
    OptionalU32,
    /// A single-precision float, carried as its IEEE-754 bit pattern.
    F32Bits,
    OptionalPublicKey,
}

/// The identity of one persisted setting: one variant per catalog key.
#[derive(Clone, Copy, Debug, PartialEq, Eq, Hash, Structural)]
pub enum SettingKey {
    PublicKey,
    LogN,
    LoginAtStartup,
    Offline,
    LoadAvatars,
    LoadMedia,
    CheckNip05,
    AutomaticallyFetchMetadata,
    RelayConnectionRequiresApproval,
    RelayAuthRequiresApproval,
    NumRelaysPerPerson,
    MaxRelays,
    LoadMoreCount,
    Reposts,
    ShowLongForm,
    ShowMentions,
    DirectMessages,
    FutureAllowanceSecs,
    HideMutesEntirely,
    Reactions,
    EnableZapReceipts,
    ShowMedia,
    ApproveContentWarning,
    ShowDeletedEvents,
    AvoidSpamOnUnsafeRelays,
    ApplySpamFilterOnIncomingEvents,
    ApplySpamFilterOnThreads,
    ApplySpamFilterOnInbox,
    ApplySpamFilterOnGlobal,
    Pow,
    SetClientTag,
    SetUserAgent,
    DelegateeTag,
    MaxFps,
    RecomputeFeedPeriodically,
    FeedRecomputeIntervalMs,
    FeedThreadScrollToMainEvent,
    ThemeVariant,
    DarkMode,
    FollowOsDarkMode,
    OverrideDpi,
    HighlightUnreadEvents,
    FeedNewestAtBottom,
    PostingAreaAtTop,
    StatusBar,
    ImageResizeAlgorithm,
    InertialScrolling,
    MouseAcceleration,
    WgpuRenderer,
    RelayListBecomesStaleMinutes,
    MetadataBecomesStaleMinutes,
    Nip05BecomesStaleIfValidHours,
    Nip05BecomesStaleIfInvalidMinutes,
    AvatarBecomesStaleHours,
    MediaBecomesStaleHours,
    MaxWebsocketMessageSizeKb,
    MaxWebsocketFrameSizeKb,
    WebsocketAcceptUnmaskedFrames,
    WebsocketConnectTimeoutSec,
    WebsocketPingFrequencySec,
    FetcherConnectTimeoutSec,
    FetcherTimeoutSec,
    FetcherMaxRequestsPerHost,
    FetcherHostExclusionOnLowErrorSecs,
    FetcherHostExclusionOnMedErrorSecs,
    FetcherHostExclusionOnHighErrorSecs,
    PrunePeriodDays,
    CachePrunePeriodDays,
    BlossomServers,
}

/// The key at position `i` of the catalog order; positions past the end give the last key.
pub open spec fn key_at(i: int) -> SettingKey {
    if i == 0 {
        SettingKey::PublicKey
    } else if i == 1 {
        SettingKey::LogN
    } else if i == 2 {
        SettingKey::LoginAtStartup
    } else if i == 3 {
        SettingKey::Offline
    } else if i == 4 {
        SettingKey::LoadAvatars
    } else if i == 5 {
        SettingKey::LoadMedia
    } else if i == 6 {
        SettingKey::CheckNip05
    } else if i == 7 {
        SettingKey::AutomaticallyFetchMetadata
    } else if i == 8 {
        SettingKey::RelayConnectionRequiresApproval
    } else if i == 9 {
        SettingKey::RelayAuthRequiresApproval
    } else if i == 10 {
        SettingKey::NumRelaysPerPerson
    } else if i == 11 {
        SettingKey::MaxRelays
    } else if i == 12 {
        SettingKey::LoadMoreCount
    } else if i == 13 {
        SettingKey::Reposts
    } else if i == 14 {
        SettingKey::ShowLongForm
    } else if i == 15 {
        SettingKey::ShowMentions
    } else if i == 16 {
        SettingKey::DirectMessages
    } else if i == 17 {
        SettingKey::FutureAllowanceSecs
    } else if i == 18 {
        SettingKey::HideMutesEntirely
    } else if i == 19 {
        SettingKey::Reactions
    } else if i == 20 {
        SettingKey::EnableZapReceipts
    } else if i == 21 {
        SettingKey::ShowMedia
    } else if i == 22 {
        SettingKey::ApproveContentWarning
    } else if i == 23 {
        SettingKey::ShowDeletedEvents
    } else if i == 24 {
        SettingKey::AvoidSpamOnUnsafeRelays
    } else if i == 25 {
        SettingKey::ApplySpamFilterOnIncomingEvents
    } else if i == 26 {
        SettingKey::ApplySpamFilterOnThreads
    } else if i == 27 {
        SettingKey::ApplySpamFilterOnInbox
    } else if i == 28 {
        SettingKey::ApplySpamFilterOnGlobal
    } else if i == 29 {
        SettingKey::Pow
    } else if i == 30 {
        SettingKey::SetClientTag
    } else if i == 31 {
        SettingKey::SetUserAgent
    } else if i == 32 {
        SettingKey::DelegateeTag
    } else if i == 33 {
        SettingKey::MaxFps
    } else if i == 34 {
        SettingKey::RecomputeFeedPeriodically
    } else if i == 35 {
        SettingKey::FeedRecomputeIntervalMs
    } else if i == 36 {
        SettingKey::FeedThreadScrollToMainEvent
    } else if i == 37 {
        SettingKey::ThemeVariant
    } else if i == 38 {
        SettingKey::DarkMode
    } else if i == 39 {
        SettingKey::FollowOsDarkMode
    } else if i == 40 {
        SettingKey::OverrideDpi
    } else if i == 41 {
        SettingKey::HighlightUnreadEvents
    } else if i == 42 {
        SettingKey::FeedNewestAtBottom
    } else if i == 43 {
        SettingKey::PostingAreaAtTop
    } else if i == 44 {
        SettingKey::StatusBar
    } else if i == 45 {
        SettingKey::ImageResizeAlgorithm
    } else if i == 46 {
        SettingKey::InertialScrolling
    } else if i == 47 {
        SettingKey::MouseAcceleration
    } else if i == 48 {
        SettingKey::WgpuRenderer
    } else if i == 49 {
        SettingKey::RelayListBecomesStaleMinutes
    } else if i == 50 {
        SettingKey::MetadataBecomesStaleMinutes
    } else if i == 51 {
        SettingKey::Nip05BecomesStaleIfValidHours
    } else if i == 52 {
        SettingKey::Nip05BecomesStaleIfInvalidMinutes
    } else if i == 53 {
        SettingKey::AvatarBecomesStaleHours
    } else if i == 54 {
        SettingKey::MediaBecomesStaleHours
    } else if i == 55 {
        SettingKey::MaxWebsocketMessageSizeKb
    } else if i == 56 {
        SettingKey::MaxWebsocketFrameSizeKb
    } else if i == 57 {
        SettingKey::WebsocketAcceptUnmaskedFrames
    } else if i == 58 {
        SettingKey::WebsocketConnectTimeoutSec
    } else if i == 59 {
        SettingKey::WebsocketPingFrequencySec
    } else if i == 60 {
        SettingKey::FetcherConnectTimeoutSec
    } else if i == 61 {
        SettingKey::FetcherTimeoutSec
    } else if i == 62 {
        SettingKey::FetcherMaxRequestsPerHost
    } else if i == 63 {
        SettingKey::FetcherHostExclusionOnLowErrorSecs
    } else if i == 64 {
        SettingKey::FetcherHostExclusionOnMedErrorSecs
    } else if i == 65 {
        SettingKey::FetcherHostExclusionOnHighErrorSecs
    } else if i == 66 {
        SettingKey::PrunePeriodDays
    } else if i == 67 {
        SettingKey::CachePrunePeriodDays
    } else {
        SettingKey::BlossomServers
    }
}

impl SettingKey {
    /// Position of the key in the catalog order.
    pub open spec fn spec_index(self) -> int {
        match self {
            SettingKey::PublicKey => 0,
            SettingKey::LogN => 1,
            SettingKey::LoginAtStartup => 2,
            SettingKey::Offline => 3,
            SettingKey::LoadAvatars => 4,
            SettingKey::LoadMedia => 5,
            SettingKey::CheckNip05 => 6,
            SettingKey::AutomaticallyFetchMetadata => 7,
            SettingKey::RelayConnectionRequiresApproval => 8,
            SettingKey::RelayAuthRequiresApproval => 9,
            SettingKey::NumRelaysPerPerson => 10,
            SettingKey::MaxRelays => 11,
            SettingKey::LoadMoreCount => 12,
            SettingKey::Reposts => 13,
            SettingKey::ShowLongForm => 14,
            SettingKey::ShowMentions => 15,
            SettingKey::DirectMessages => 16,
            SettingKey::FutureAllowanceSecs => 17,
            SettingKey::HideMutesEntirely => 18,
            SettingKey::Reactions => 19,
            SettingKey::EnableZapReceipts => 20,
            SettingKey::ShowMedia => 21,
            SettingKey::ApproveContentWarning => 22,
            SettingKey::ShowDeletedEvents => 23,
            SettingKey::AvoidSpamOnUnsafeRelays => 24,
            SettingKey::ApplySpamFilterOnIncomingEvents => 25,
            SettingKey::ApplySpamFilterOnThreads => 26,
            SettingKey::ApplySpamFilterOnInbox => 27,
            SettingKey::ApplySpamFilterOnGlobal => 28,
            SettingKey::Pow => 29,
            SettingKey::SetClientTag => 30,
            SettingKey::SetUserAgent => 31,
            SettingKey::DelegateeTag => 32,
            SettingKey::MaxFps => 33,
            SettingKey::RecomputeFeedPeriodically => 34,
            SettingKey::FeedRecomputeIntervalMs => 35,
            SettingKey::FeedThreadScrollToMainEvent => 36,
            SettingKey::ThemeVariant => 37,
            SettingKey::DarkMode => 38,
            SettingKey::FollowOsDarkMode => 39,
            SettingKey::OverrideDpi => 40,
            SettingKey::HighlightUnreadEvents => 41,
            SettingKey::FeedNewestAtBottom => 42,
            SettingKey::PostingAreaAtTop => 43,
            SettingKey::StatusBar => 44,
            SettingKey::ImageResizeAlgorithm => 45,
            SettingKey::InertialScrolling => 46,
            SettingKey::MouseAcceleration => 47,
            SettingKey::WgpuRenderer => 48,
            SettingKey::RelayListBecomesStaleMinutes => 49,
            SettingKey::MetadataBecomesStaleMinutes => 50,
            SettingKey::Nip05BecomesStaleIfValidHours => 51,
            SettingKey::Nip05BecomesStaleIfInvalidMinutes => 52,
            SettingKey::AvatarBecomesStaleHours => 53,
            SettingKey::MediaBecomesStaleHours => 54,
            SettingKey::MaxWebsocketMessageSizeKb => 55,
            SettingKey::MaxWebsocketFrameSizeKb => 56,
            SettingKey::WebsocketAcceptUnmaskedFrames => 57,
            SettingKey::WebsocketConnectTimeoutSec => 58,
            SettingKey::WebsocketPingFrequencySec => 59,
            SettingKey::FetcherConnectTimeoutSec => 60,
            SettingKey::FetcherTimeoutSec => 61,
            SettingKey::FetcherMaxRequestsPerHost => 62,
            SettingKey::FetcherHostExclusionOnLowErrorSecs => 63,
            SettingKey::FetcherHostExclusionOnMedErrorSecs => 64,
            SettingKey::FetcherHostExclusionOnHighErrorSecs => 65,
            SettingKey::PrunePeriodDays => 66,
            SettingKey::CachePrunePeriodDays => 67,
            SettingKey::BlossomServers => 68,
        }
    }

    /// Type of the value stored under the key.
    pub open spec fn spec_kind(self) -> ValueKind {
        match self {
            SettingKey::PublicKey => ValueKind::OptionalPublicKey,
            SettingKey::LogN => ValueKind::U8,
            SettingKey::LoginAtStartup => ValueKind::Bool,
            SettingKey::Offline => ValueKind::Bool,
            SettingKey::LoadAvatars => ValueKind::Bool,
            SettingKey::LoadMedia => ValueKind::Bool,
            SettingKey::CheckNip05 => ValueKind::Bool,
            SettingKey::AutomaticallyFetchMetadata => ValueKind::Bool,
            SettingKey::RelayConnectionRequiresApproval => ValueKind::Bool,
            SettingKey::RelayAuthRequiresApproval => ValueKind::Bool,
            SettingKey::NumRelaysPerPerson => ValueKind::U8,
            SettingKey::MaxRelays => ValueKind::U8,
            SettingKey::LoadMoreCount => ValueKind::U64,
            SettingKey::Reposts => ValueKind::Bool,
            SettingKey::ShowLongForm => ValueKind::Bool,
            SettingKey::ShowMentions => ValueKind::Bool,
            SettingKey::DirectMessages => ValueKind::Bool,
            SettingKey::FutureAllowanceSecs => ValueKind::U64,
            SettingKey::HideMutesEntirely => ValueKind::Bool,
            SettingKey::Reactions => ValueKind::Bool,
            SettingKey::EnableZapReceipts => ValueKind::Bool,
            SettingKey::ShowMedia => ValueKind::Bool,
            SettingKey::ApproveContentWarning => ValueKind::Bool,
            SettingKey::ShowDeletedEvents => ValueKind::Bool,
            SettingKey::AvoidSpamOnUnsafeRelays => ValueKind::Bool,
            SettingKey::ApplySpamFilterOnIncomingEvents => ValueKind::Bool,
            SettingKey::ApplySpamFilterOnThreads => ValueKind::Bool,
            SettingKey::ApplySpamFilterOnInbox => ValueKind::Bool,
            SettingKey::ApplySpamFilterOnGlobal => ValueKind::Bool,
            SettingKey::Pow => ValueKind::U8,
            SettingKey::SetClientTag => ValueKind::Bool,
            SettingKey::SetUserAgent => ValueKind::Bool,
            SettingKey::DelegateeTag => ValueKind::Text,
            SettingKey::MaxFps => ValueKind::U32,
            SettingKey::RecomputeFeedPeriodically => ValueKind::Bool,
            SettingKey::FeedRecomputeIntervalMs => ValueKind::U32,
            SettingKey::FeedThreadScrollToMainEvent => ValueKind::Bool,
            SettingKey::ThemeVariant => ValueKind::Text,
            SettingKey::DarkMode => ValueKind::Bool,
            SettingKey::FollowOsDarkMode => ValueKind::Bool,
            SettingKey::OverrideDpi => ValueKind::OptionalU32,
            SettingKey::HighlightUnreadEvents => ValueKind::Bool,
            SettingKey::FeedNewestAtBottom => ValueKind::Bool,
            SettingKey::PostingAreaAtTop => ValueKind::Bool,
            SettingKey::StatusBar => ValueKind::Bool,
            SettingKey::ImageResizeAlgorithm => ValueKind::Text,
            SettingKey::InertialScrolling => ValueKind::Bool,
            SettingKey::MouseAcceleration => ValueKind::F32Bits,
            SettingKey::WgpuRenderer => ValueKind::Bool,
            SettingKey::RelayListBecomesStaleMinutes => ValueKind::U64,
            SettingKey::MetadataBecomesStaleMinutes => ValueKind::U64,
            SettingKey::Nip05BecomesStaleIfValidHours => ValueKind::U64,
            SettingKey::Nip05BecomesStaleIfInvalidMinutes => ValueKind::U64,
            SettingKey::AvatarBecomesStaleHours => ValueKind::U64,
            SettingKey::MediaBecomesStaleHours => ValueKind::U64,
            SettingKey::MaxWebsocketMessageSizeKb => ValueKind::Usize,
            SettingKey::MaxWebsocketFrameSizeKb => ValueKind::Usize,
            SettingKey::WebsocketAcceptUnmaskedFrames => ValueKind::Bool,
            SettingKey::WebsocketConnectTimeoutSec => ValueKind::U64,
            SettingKey::WebsocketPingFrequencySec => ValueKind::U64,
            SettingKey::FetcherConnectTimeoutSec => ValueKind::U64,
            SettingKey::FetcherTimeoutSec => ValueKind::U64,
            SettingKey::FetcherMaxRequestsPerHost => ValueKind::Usize,
            SettingKey::FetcherHostExclusionOnLowErrorSecs => ValueKind::U64,
            SettingKey::FetcherHostExclusionOnMedErrorSecs => ValueKind::U64,
            SettingKey::FetcherHostExclusionOnHighErrorSecs => ValueKind::U64,
            SettingKey::PrunePeriodDays => ValueKind::U64,
            SettingKey::CachePrunePeriodDays => ValueKind::U64,
            SettingKey::BlossomServers => ValueKind::Text,
        }
    }

    pub fn index(&self) -> (r: usize)
        ensures
            r as int == self.spec_index(),
    {
        match self {
            SettingKey::PublicKey => 0,
            SettingKey::LogN => 1,
            SettingKey::LoginAtStartup => 2,
            SettingKey::Offline => 3,
            SettingKey::LoadAvatars => 4,
            SettingKey::LoadMedia => 5,
            SettingKey::CheckNip05 => 6,
            SettingKey::AutomaticallyFetchMetadata => 7,
            SettingKey::RelayConnectionRequiresApproval => 8,
            SettingKey::RelayAuthRequiresApproval => 9,
            SettingKey::NumRelaysPerPerson => 10,
            SettingKey::MaxRelays => 11,
            SettingKey::LoadMoreCount => 12,
            SettingKey::Reposts => 13,
            SettingKey::ShowLongForm => 14,
            SettingKey::ShowMentions => 15,
            SettingKey::DirectMessages => 16,
            SettingKey::FutureAllowanceSecs => 17,
            SettingKey::HideMutesEntirely => 18,
            SettingKey::Reactions => 19,
            SettingKey::EnableZapReceipts => 20,
            SettingKey::ShowMedia => 21,
            SettingKey::ApproveContentWarning => 22,
            SettingKey::ShowDeletedEvents => 23,
            SettingKey::AvoidSpamOnUnsafeRelays => 24,
            SettingKey::ApplySpamFilterOnIncomingEvents => 25,
            SettingKey::ApplySpamFilterOnThreads => 26,
            SettingKey::ApplySpamFilterOnInbox => 27,
            SettingKey::ApplySpamFilterOnGlobal => 28,
            SettingKey::Pow => 29,
            SettingKey::SetClientTag => 30,
            SettingKey::SetUserAgent => 31,
            SettingKey::DelegateeTag => 32,
            SettingKey::MaxFps => 33,
            SettingKey::RecomputeFeedPeriodically => 34,
            SettingKey::FeedRecomputeIntervalMs => 35,
            SettingKey::FeedThreadScrollToMainEvent => 36,
            SettingKey::ThemeVariant => 37,
            SettingKey::DarkMode => 38,
            SettingKey::FollowOsDarkMode => 39,
            SettingKey::OverrideDpi => 40,
            SettingKey::HighlightUnreadEvents => 41,
            SettingKey::FeedNewestAtBottom => 42,
            SettingKey::PostingAreaAtTop => 43,
            SettingKey::StatusBar => 44,
            SettingKey::ImageResizeAlgorithm => 45,
            SettingKey::InertialScrolling => 46,
            SettingKey::MouseAcceleration => 47,
            SettingKey::WgpuRenderer => 48,
            SettingKey::RelayListBecomesStaleMinutes => 49,
            SettingKey::MetadataBecomesStaleMinutes => 50,
            SettingKey::Nip05BecomesStaleIfValidHours => 51,
            SettingKey::Nip05BecomesStaleIfInvalidMinutes => 52,
            SettingKey::AvatarBecomesStaleHours => 53,
            SettingKey::MediaBecomesStaleHours => 54,
            SettingKey::MaxWebsocketMessageSizeKb => 55,
            SettingKey::MaxWebsocketFrameSizeKb => 56,
            SettingKey::WebsocketAcceptUnmaskedFrames => 57,
            SettingKey::WebsocketConnectTimeoutSec => 58,
            SettingKey::WebsocketPingFrequencySec => 59,
            SettingKey::FetcherConnectTimeoutSec => 60,
            SettingKey::FetcherTimeoutSec => 61,
            SettingKey::FetcherMaxRequestsPerHost => 62,
            SettingKey::FetcherHostExclusionOnLowErrorSecs => 63,
            SettingKey::FetcherHostExclusionOnMedErrorSecs => 64,
            SettingKey::FetcherHostExclusionOnHighErrorSecs => 65,
            SettingKey::PrunePeriodDays => 66,
            SettingKey::CachePrunePeriodDays => 67,
            SettingKey::BlossomServers => 68,
        }
    }

    pub fn kind(&self) -> (r: ValueKind)
        ensures
            r == self.spec_kind(),
    {
        match self {
            SettingKey::PublicKey => ValueKind::OptionalPublicKey,
            SettingKey::LogN => ValueKind::U8,
            SettingKey::LoginAtStartup => ValueKind::Bool,
            SettingKey::Offline => ValueKind::Bool,
            SettingKey::LoadAvatars => ValueKind::Bool,
            SettingKey::LoadMedia => ValueKind::Bool,
            SettingKey::CheckNip05 => ValueKind::Bool,
            SettingKey::AutomaticallyFetchMetadata => ValueKind::Bool,
            SettingKey::RelayConnectionRequiresApproval => ValueKind::Bool,
            SettingKey::RelayAuthRequiresApproval => ValueKind::Bool,
            SettingKey::NumRelaysPerPerson => ValueKind::U8,
            SettingKey::MaxRelays => ValueKind::U8,
            SettingKey::LoadMoreCount => ValueKind::U64,
            SettingKey::Reposts => ValueKind::Bool,
            SettingKey::ShowLongForm => ValueKind::Bool,
            SettingKey::ShowMentions => ValueKind::Bool,
            SettingKey::DirectMessages => ValueKind::Bool,
            SettingKey::FutureAllowanceSecs => ValueKind::U64,
            SettingKey::HideMutesEntirely => ValueKind::Bool,
            SettingKey::Reactions => ValueKind::Bool,
            SettingKey::EnableZapReceipts => ValueKind::Bool,
            SettingKey::ShowMedia => ValueKind::Bool,
            SettingKey::ApproveContentWarning => ValueKind::Bool,
            SettingKey::ShowDeletedEvents => ValueKind::Bool,
            SettingKey::AvoidSpamOnUnsafeRelays => ValueKind::Bool,
            SettingKey::ApplySpamFilterOnIncomingEvents => ValueKind::Bool,
            SettingKey::ApplySpamFilterOnThreads => ValueKind::Bool,
            SettingKey::ApplySpamFilterOnInbox => ValueKind::Bool,
            SettingKey::ApplySpamFilterOnGlobal => ValueKind::Bool,
            SettingKey::Pow => ValueKind::U8,
            SettingKey::SetClientTag => ValueKind::Bool,
            SettingKey::SetUserAgent => ValueKind::Bool,
            SettingKey::DelegateeTag => ValueKind::Text,
            SettingKey::MaxFps => ValueKind::U32,
            SettingKey::RecomputeFeedPeriodically => ValueKind::Bool,
            SettingKey::FeedRecomputeIntervalMs => ValueKind::U32,
            SettingKey::FeedThreadScrollToMainEvent => ValueKind::Bool,
            SettingKey::ThemeVariant => ValueKind::Text,
            SettingKey::DarkMode => ValueKind::Bool,
            SettingKey::FollowOsDarkMode => ValueKind::Bool,
            SettingKey::OverrideDpi => ValueKind::OptionalU32,
            SettingKey::HighlightUnreadEvents => ValueKind::Bool,
            SettingKey::FeedNewestAtBottom => ValueKind::Bool,
            SettingKey::PostingAreaAtTop => ValueKind::Bool,
            SettingKey::StatusBar => ValueKind::Bool,
            SettingKey::ImageResizeAlgorithm => ValueKind::Text,
            SettingKey::InertialScrolling => ValueKind::Bool,
            SettingKey::MouseAcceleration => ValueKind::F32Bits,
            SettingKey::WgpuRenderer => ValueKind::Bool,
            SettingKey::RelayListBecomesStaleMinutes => ValueKind::U64,
            SettingKey::MetadataBecomesStaleMinutes => ValueKind::U64,
            SettingKey::Nip05BecomesStaleIfValidHours => ValueKind::U64,
            SettingKey::Nip05BecomesStaleIfInvalidMinutes => ValueKind::U64,
            SettingKey::AvatarBecomesStaleHours => ValueKind::U64,
            SettingKey::MediaBecomesStaleHours => ValueKind::U64,
            SettingKey::MaxWebsocketMessageSizeKb => ValueKind::Usize,
            SettingKey::MaxWebsocketFrameSizeKb => ValueKind::Usize,
            SettingKey::WebsocketAcceptUnmaskedFrames => ValueKind::Bool,
            SettingKey::WebsocketConnectTimeoutSec => ValueKind::U64,
            SettingKey::WebsocketPingFrequencySec => ValueKind::U64,
            SettingKey::FetcherConnectTimeoutSec => ValueKind::U64,
            SettingKey::FetcherTimeoutSec => ValueKind::U64,
            SettingKey::FetcherMaxRequestsPerHost => ValueKind::Usize,
            SettingKey::FetcherHostExclusionOnLowErrorSecs => ValueKind::U64,
            SettingKey::FetcherHostExclusionOnMedErrorSecs => ValueKind::U64,
            SettingKey::FetcherHostExclusionOnHighErrorSecs => ValueKind::U64,
            SettingKey::PrunePeriodDays => ValueKind::U64,
            SettingKey::CachePrunePeriodDays => ValueKind::U64,
            SettingKey::BlossomServers => ValueKind::Text,
        }
    }

    /// The key at position `i` of the catalog order.
    pub fn from_index(i: usize) -> (r: SettingKey)
        requires
            i < SETTING_COUNT,
        ensures
            r == key_at(i as int),
    {
        match i {
            0 => SettingKey::PublicKey,
            1 => SettingKey::LogN,
            2 => SettingKey::LoginAtStartup,
            3 => SettingKey::Offline,
            4 => SettingKey::LoadAvatars,
            5 => SettingKey::LoadMedia,
            6 => SettingKey::CheckNip05,
            7 => SettingKey::AutomaticallyFetchMetadata,
            8 => SettingKey::RelayConnectionRequiresApproval,
            9 => SettingKey::RelayAuthRequiresApproval,
            10 => SettingKey::NumRelaysPerPerson,
            11 => SettingKey::MaxRelays,
            12 => SettingKey::LoadMoreCount,
            13 => SettingKey::Reposts,
            14 => SettingKey::ShowLongForm,
            15 => SettingKey::ShowMentions,
            16 => SettingKey::DirectMessages,
            17 => SettingKey::FutureAllowanceSecs,
            18 => SettingKey::HideMutesEntirely,
            19 => SettingKey::Reactions,
            20 => SettingKey::EnableZapReceipts,
            21 => SettingKey::ShowMedia,
            22 => SettingKey::ApproveContentWarning,
            23 => SettingKey::ShowDeletedEvents,
            24 => SettingKey::AvoidSpamOnUnsafeRelays,
            25 => SettingKey::ApplySpamFilterOnIncomingEvents,
            26 => SettingKey::ApplySpamFilterOnThreads,
            27 => SettingKey::ApplySpamFilterOnInbox,
            28 => SettingKey::ApplySpamFilterOnGlobal,
            29 => SettingKey::Pow,
            30 => SettingKey::SetClientTag,
            31 => SettingKey::SetUserAgent,
            32 => SettingKey::DelegateeTag,
            33 => SettingKey::MaxFps,
            34 => SettingKey::RecomputeFeedPeriodically,
            35 => SettingKey::FeedRecomputeIntervalMs,
            36 => SettingKey::FeedThreadScrollToMainEvent,
            37 => SettingKey::ThemeVariant,
            38 => SettingKey::DarkMode,
            39 => SettingKey::FollowOsDarkMode,
            40 => SettingKey::OverrideDpi,
            41 => SettingKey::HighlightUnreadEvents,
            42 => SettingKey::FeedNewestAtBottom,
            43 => SettingKey::PostingAreaAtTop,
            44 => SettingKey::StatusBar,
            45 => SettingKey::ImageResizeAlgorithm,
            46 => SettingKey::InertialScrolling,
            47 => SettingKey::MouseAcceleration,
            48 => SettingKey::WgpuRenderer,
            49 => SettingKey::RelayListBecomesStaleMinutes,
            50 => SettingKey::MetadataBecomesStaleMinutes,
            51 => SettingKey::Nip05BecomesStaleIfValidHours,
            52 => SettingKey::Nip05BecomesStaleIfInvalidMinutes,
            53 => SettingKey::AvatarBecomesStaleHours,
            54 => SettingKey::MediaBecomesStaleHours,
            55 => SettingKey::MaxWebsocketMessageSizeKb,
            56 => SettingKey::MaxWebsocketFrameSizeKb,
            57 => SettingKey::WebsocketAcceptUnmaskedFrames,
            58 => SettingKey::WebsocketConnectTimeoutSec,
            59 => SettingKey::WebsocketPingFrequencySec,
            60 => SettingKey::FetcherConnectTimeoutSec,
            61 => SettingKey::FetcherTimeoutSec,
            62 => SettingKey::FetcherMaxRequestsPerHost,
            63 => SettingKey::FetcherHostExclusionOnLowErrorSecs,
            64 => SettingKey::FetcherHostExclusionOnMedErrorSecs,
            65 => SettingKey::FetcherHostExclusionOnHighErrorSecs,
            66 => SettingKey::PrunePeriodDays,
            67 => SettingKey::CachePrunePeriodDays,
            _ => SettingKey::BlossomServers,
        }
    }

    /// Every key of the catalog, in catalog order.
    pub fn all() -> (r: Vec<SettingKey>)
        ensures
            r@.len() == SETTING_COUNT,
            forall|i: int| 0 <= i < SETTING_COUNT ==> #[trigger] r@[i] == key_at(i),
    {
        let mut r: Vec<SettingKey> = Vec::new();
        let mut i: usize = 0;
        while i < SETTING_COUNT
            invariant
                i <= SETTING_COUNT,
                r@.len() == i,
                forall|j: int| 0 <= j < i ==> #[trigger] r@[j] == key_at(j),
            decreases SETTING_COUNT - i,
        {
            r.push(SettingKey::from_index(i));
            i = i + 1;
        }
        r
    }
}

/// Every key stands at exactly one position of the catalog order, and every position
/// below the catalog size holds exactly one key: positions and keys correspond one to one.
pub proof fn lemma_key_positions()
    ensures
        forall|k: SettingKey|
            0 <= #[trigger] k.spec_index() < SETTING_COUNT && key_at(k.spec_index()) == k,
        forall|i: int| 0 <= i < SETTING_COUNT ==> #[trigger] key_at(i).spec_index() == i,
{
    assert forall|k: SettingKey|
        0 <= #[trigger] k.spec_index() < SETTING_COUNT && key_at(k.spec_index()) == k by {
        match k {
            SettingKey::PublicKey => {},
            SettingKey::LogN => {},
            SettingKey::LoginAtStartup => {},
            SettingKey::Offline => {},
            SettingKey::LoadAvatars => {},
            SettingKey::LoadMedia => {},
            SettingKey::CheckNip05 => {},
            SettingKey::AutomaticallyFetchMetadata => {},
            SettingKey::RelayConnectionRequiresApproval => {},
            SettingKey::RelayAuthRequiresApproval => {},
            SettingKey::NumRelaysPerPerson => {},
            SettingKey::MaxRelays => {},
            SettingKey::LoadMoreCount => {},
            SettingKey::Reposts => {},
            SettingKey::ShowLongForm => {},
            SettingKey::ShowMentions => {},
            SettingKey::DirectMessages => {},
            SettingKey::FutureAllowanceSecs => {},
            SettingKey::HideMutesEntirely => {},
            SettingKey::Reactions => {},
            SettingKey::EnableZapReceipts => {},
            SettingKey::ShowMedia => {},
            SettingKey::ApproveContentWarning => {},
            SettingKey::ShowDeletedEvents => {},
            SettingKey::AvoidSpamOnUnsafeRelays => {},
            SettingKey::ApplySpamFilterOnIncomingEvents => {},
            SettingKey::ApplySpamFilterOnThreads => {},
            SettingKey::ApplySpamFilterOnInbox => {},
            SettingKey::ApplySpamFilterOnGlobal => {},
            SettingKey::Pow => {},
            SettingKey::SetClientTag => {},
            SettingKey::SetUserAgent => {},
            SettingKey::DelegateeTag => {},
            SettingKey::MaxFps => {},
            SettingKey::RecomputeFeedPeriodically => {},
            SettingKey::FeedRecomputeIntervalMs => {},
            SettingKey::FeedThreadScrollToMainEvent => {},
            SettingKey::ThemeVariant => {},
            SettingKey::DarkMode => {},
            SettingKey::FollowOsDarkMode => {},
            SettingKey::OverrideDpi => {},
            SettingKey::HighlightUnreadEvents => {},
            SettingKey::FeedNewestAtBottom => {},
            SettingKey::PostingAreaAtTop => {},
            SettingKey::StatusBar => {},
            SettingKey::ImageResizeAlgorithm => {},
            SettingKey::InertialScrolling => {},
            SettingKey::MouseAcceleration => {},
            SettingKey::WgpuRenderer => {},
            SettingKey::RelayListBecomesStaleMinutes => {},
            SettingKey::MetadataBecomesStaleMinutes => {},
            SettingKey::Nip05BecomesStaleIfValidHours => {},
            SettingKey::Nip05BecomesStaleIfInvalidMinutes => {},
            SettingKey::AvatarBecomesStaleHours => {},
            SettingKey::MediaBecomesStaleHours => {},
            SettingKey::MaxWebsocketMessageSizeKb => {},
            SettingKey::MaxWebsocketFrameSizeKb => {},
            SettingKey::WebsocketAcceptUnmaskedFrames => {},
            SettingKey::WebsocketConnectTimeoutSec => {},
            SettingKey::WebsocketPingFrequencySec => {},
            SettingKey::FetcherConnectTimeoutSec => {},
            SettingKey::FetcherTimeoutSec => {},
            SettingKey::FetcherMaxRequestsPerHost => {},
            SettingKey::FetcherHostExclusionOnLowErrorSecs => {},
            SettingKey::FetcherHostExclusionOnMedErrorSecs => {},
            SettingKey::FetcherHostExclusionOnHighErrorSecs => {},
            SettingKey::PrunePeriodDays => {},
            SettingKey::CachePrunePeriodDays => {},
            SettingKey::BlossomServers => {},
        }
    }
    assert forall|i: int| 0 <= i < SETTING_COUNT implies #[trigger] key_at(i).spec_index() == i by {
    }
}

} // verus!
