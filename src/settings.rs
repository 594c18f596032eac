use crate::catalog::{key_at, lemma_key_positions, SettingKey, SETTING_COUNT};
use crate::table::SettingsTable;
use crate::value::SettingValue;
use nostr_types::PublicKey;
use vstd::prelude::*;

verus! {

/// A staged copy of every persisted setting: one field per catalog key, with the type
/// that the key holds. Changing a field touches no store; only a save does.
#[derive(Clone, Debug, PartialEq)]
pub struct UnsavedSettings {
    // Identity
    pub public_key: Option<PublicKey>,
    pub log_n: u8,
    pub login_at_startup: bool,

    // Network
    pub offline: bool,
    pub load_avatars: bool,
    pub load_media: bool,
    pub check_nip05: bool,
    pub automatically_fetch_metadata: bool,
    pub relay_connection_requires_approval: bool,
    pub relay_auth_requires_approval: bool,

    // Relay selection
    pub num_relays_per_person: u8,
    pub max_relays: u8,

    // Feed
    pub load_more_count: u64,

    // Event selection
    pub reposts: bool,
    pub show_long_form: bool,
    pub show_mentions: bool,
    pub direct_messages: bool,
    pub future_allowance_secs: u64,

    // Event content
    pub hide_mutes_entirely: bool,
    pub reactions: bool,
    pub enable_zap_receipts: bool,
    pub show_media: bool,
    pub approve_content_warning: bool,
    pub show_deleted_events: bool,
    pub avoid_spam_on_unsafe_relays: bool,
    pub apply_spam_filter_on_incoming_events: bool,
    pub apply_spam_filter_on_threads: bool,
    pub apply_spam_filter_on_inbox: bool,
    pub apply_spam_filter_on_global: bool,

    // Posting
    pub pow: u8,
    pub set_client_tag: bool,
    pub set_user_agent: bool,
    pub delegatee_tag: String,

    // User interface
    pub max_fps: u32,
    pub recompute_feed_periodically: bool,
    pub feed_recompute_interval_ms: u32,
    pub feed_thread_scroll_to_main_event: bool,
    pub theme_variant: String,
    pub dark_mode: bool,
    pub follow_os_dark_mode: bool,
    pub override_dpi: Option<u32>,
    pub highlight_unread_events: bool,
    pub feed_newest_at_bottom: bool,
    pub posting_area_at_top: bool,
    pub status_bar: bool,
    pub image_resize_algorithm: String,
    pub inertial_scrolling: bool,
    /// The IEEE-754 bit pattern of the single-precision value.
    pub mouse_acceleration: u32,
    pub wgpu_renderer: bool,

    // Staleness thresholds
    pub relay_list_becomes_stale_minutes: u64,
    pub metadata_becomes_stale_minutes: u64,
    pub nip05_becomes_stale_if_valid_hours: u64,
    pub nip05_becomes_stale_if_invalid_minutes: u64,
    pub avatar_becomes_stale_hours: u64,
    pub media_becomes_stale_hours: u64,

    // Websocket transport
    pub max_websocket_message_size_kb: usize,
    pub max_websocket_frame_size_kb: usize,
    pub websocket_accept_unmasked_frames: bool,
    pub websocket_connect_timeout_sec: u64,
    pub websocket_ping_frequency_sec: u64,

    // HTTP fetcher
    pub fetcher_connect_timeout_sec: u64,
    pub fetcher_timeout_sec: u64,
    pub fetcher_max_requests_per_host: usize,
    pub fetcher_host_exclusion_on_low_error_secs: u64,
    pub fetcher_host_exclusion_on_med_error_secs: u64,
    pub fetcher_host_exclusion_on_high_error_secs: u64,

    // Database maintenance
    pub prune_period_days: u64,
    pub cache_prune_period_days: u64,

    // External services
    pub blossom_servers: String,
}

impl View for UnsavedSettings {
    type V = Seq<SettingValue>;

    /// The field values in catalog order.
    open spec fn view(&self) -> Seq<SettingValue> {
        Seq::new(SETTING_COUNT as nat, |i: int| self.spec_get(key_at(i)))
    }
}

impl UnsavedSettings {
    /// The value of the field that stands for `key`.
    pub open spec fn spec_get(self, key: SettingKey) -> SettingValue {
        match key {
            SettingKey::PublicKey => SettingValue::OptionalPublicKey(self.public_key),
            SettingKey::LogN => SettingValue::U8(self.log_n),
            SettingKey::LoginAtStartup => SettingValue::Bool(self.login_at_startup),
            SettingKey::Offline => SettingValue::Bool(self.offline),
            SettingKey::LoadAvatars => SettingValue::Bool(self.load_avatars),
            SettingKey::LoadMedia => SettingValue::Bool(self.load_media),
            SettingKey::CheckNip05 => SettingValue::Bool(self.check_nip05),
            SettingKey::AutomaticallyFetchMetadata => SettingValue::Bool(self.automatically_fetch_metadata),
            SettingKey::RelayConnectionRequiresApproval => SettingValue::Bool(self.relay_connection_requires_approval),
            SettingKey::RelayAuthRequiresApproval => SettingValue::Bool(self.relay_auth_requires_approval),
            SettingKey::NumRelaysPerPerson => SettingValue::U8(self.num_relays_per_person),
            SettingKey::MaxRelays => SettingValue::U8(self.max_relays),
            SettingKey::LoadMoreCount => SettingValue::U64(self.load_more_count),
            SettingKey::Reposts => SettingValue::Bool(self.reposts),
            SettingKey::ShowLongForm => SettingValue::Bool(self.show_long_form),
            SettingKey::ShowMentions => SettingValue::Bool(self.show_mentions),
            SettingKey::DirectMessages => SettingValue::Bool(self.direct_messages),
            SettingKey::FutureAllowanceSecs => SettingValue::U64(self.future_allowance_secs),
            SettingKey::HideMutesEntirely => SettingValue::Bool(self.hide_mutes_entirely),
            SettingKey::Reactions => SettingValue::Bool(self.reactions),
            SettingKey::EnableZapReceipts => SettingValue::Bool(self.enable_zap_receipts),
            SettingKey::ShowMedia => SettingValue::Bool(self.show_media),
            SettingKey::ApproveContentWarning => SettingValue::Bool(self.approve_content_warning),
            SettingKey::ShowDeletedEvents => SettingValue::Bool(self.show_deleted_events),
            SettingKey::AvoidSpamOnUnsafeRelays => SettingValue::Bool(self.avoid_spam_on_unsafe_relays),
            SettingKey::ApplySpamFilterOnIncomingEvents => SettingValue::Bool(self.apply_spam_filter_on_incoming_events),
            SettingKey::ApplySpamFilterOnThreads => SettingValue::Bool(self.apply_spam_filter_on_threads),
            SettingKey::ApplySpamFilterOnInbox => SettingValue::Bool(self.apply_spam_filter_on_inbox),
            SettingKey::ApplySpamFilterOnGlobal => SettingValue::Bool(self.apply_spam_filter_on_global),
            SettingKey::Pow => SettingValue::U8(self.pow),
            SettingKey::SetClientTag => SettingValue::Bool(self.set_client_tag),
            SettingKey::SetUserAgent => SettingValue::Bool(self.set_user_agent),
            SettingKey::DelegateeTag => SettingValue::Text(self.delegatee_tag),
            SettingKey::MaxFps => SettingValue::U32(self.max_fps),
            SettingKey::RecomputeFeedPeriodically => SettingValue::Bool(self.recompute_feed_periodically),
            SettingKey::FeedRecomputeIntervalMs => SettingValue::U32(self.feed_recompute_interval_ms),
            SettingKey::FeedThreadScrollToMainEvent => SettingValue::Bool(self.feed_thread_scroll_to_main_event),
            SettingKey::ThemeVariant => SettingValue::Text(self.theme_variant),
            SettingKey::DarkMode => SettingValue::Bool(self.dark_mode),
            SettingKey::FollowOsDarkMode => SettingValue::Bool(self.follow_os_dark_mode),
            SettingKey::OverrideDpi => SettingValue::OptionalU32(self.override_dpi),
            SettingKey::HighlightUnreadEvents => SettingValue::Bool(self.highlight_unread_events),
            SettingKey::FeedNewestAtBottom => SettingValue::Bool(self.feed_newest_at_bottom),
            SettingKey::PostingAreaAtTop => SettingValue::Bool(self.posting_area_at_top),
            SettingKey::StatusBar => SettingValue::Bool(self.status_bar),
            SettingKey::ImageResizeAlgorithm => SettingValue::Text(self.image_resize_algorithm),
            SettingKey::InertialScrolling => SettingValue::Bool(self.inertial_scrolling),
            SettingKey::MouseAcceleration => SettingValue::F32Bits(self.mouse_acceleration),
            SettingKey::WgpuRenderer => SettingValue::Bool(self.wgpu_renderer),
            SettingKey::RelayListBecomesStaleMinutes => SettingValue::U64(self.relay_list_becomes_stale_minutes),
            SettingKey::MetadataBecomesStaleMinutes => SettingValue::U64(self.metadata_becomes_stale_minutes),
            SettingKey::Nip05BecomesStaleIfValidHours => SettingValue::U64(self.nip05_becomes_stale_if_valid_hours),
            SettingKey::Nip05BecomesStaleIfInvalidMinutes => SettingValue::U64(self.nip05_becomes_stale_if_invalid_minutes),
            SettingKey::AvatarBecomesStaleHours => SettingValue::U64(self.avatar_becomes_stale_hours),
            SettingKey::MediaBecomesStaleHours => SettingValue::U64(self.media_becomes_stale_hours),
            SettingKey::MaxWebsocketMessageSizeKb => SettingValue::Usize(self.max_websocket_message_size_kb),
            SettingKey::MaxWebsocketFrameSizeKb => SettingValue::Usize(self.max_websocket_frame_size_kb),
            SettingKey::WebsocketAcceptUnmaskedFrames => SettingValue::Bool(self.websocket_accept_unmasked_frames),
            SettingKey::WebsocketConnectTimeoutSec => SettingValue::U64(self.websocket_connect_timeout_sec),
            SettingKey::WebsocketPingFrequencySec => SettingValue::U64(self.websocket_ping_frequency_sec),
            SettingKey::FetcherConnectTimeoutSec => SettingValue::U64(self.fetcher_connect_timeout_sec),
            SettingKey::FetcherTimeoutSec => SettingValue::U64(self.fetcher_timeout_sec),
            SettingKey::FetcherMaxRequestsPerHost => SettingValue::Usize(self.fetcher_max_requests_per_host),
            SettingKey::FetcherHostExclusionOnLowErrorSecs => SettingValue::U64(self.fetcher_host_exclusion_on_low_error_secs),
            SettingKey::FetcherHostExclusionOnMedErrorSecs => SettingValue::U64(self.fetcher_host_exclusion_on_med_error_secs),
            SettingKey::FetcherHostExclusionOnHighErrorSecs => SettingValue::U64(self.fetcher_host_exclusion_on_high_error_secs),
            SettingKey::PrunePeriodDays => SettingValue::U64(self.prune_period_days),
            SettingKey::CachePrunePeriodDays => SettingValue::U64(self.cache_prune_period_days),
            SettingKey::BlossomServers => SettingValue::Text(self.blossom_servers),
        }
    }

    /// Each field holds the value that `values` holds at its key's position.
    pub open spec fn agrees_with(self, values: Seq<SettingValue>) -> bool {
        forall|k: SettingKey| #[trigger] self.spec_get(k) == values[k.spec_index()]
    }

    /// The value of the field that stands for `key`.
    pub fn get(&self, key: SettingKey) -> (r: SettingValue)
        ensures
            r == self.spec_get(key),
    {
        match key {
            SettingKey::PublicKey => SettingValue::OptionalPublicKey(self.public_key),
            SettingKey::LogN => SettingValue::U8(self.log_n),
            SettingKey::LoginAtStartup => SettingValue::Bool(self.login_at_startup),
            SettingKey::Offline => SettingValue::Bool(self.offline),
            SettingKey::LoadAvatars => SettingValue::Bool(self.load_avatars),
            SettingKey::LoadMedia => SettingValue::Bool(self.load_media),
            SettingKey::CheckNip05 => SettingValue::Bool(self.check_nip05),
            SettingKey::AutomaticallyFetchMetadata => SettingValue::Bool(self.automatically_fetch_metadata),
            SettingKey::RelayConnectionRequiresApproval => SettingValue::Bool(self.relay_connection_requires_approval),
            SettingKey::RelayAuthRequiresApproval => SettingValue::Bool(self.relay_auth_requires_approval),
            SettingKey::NumRelaysPerPerson => SettingValue::U8(self.num_relays_per_person),
            SettingKey::MaxRelays => SettingValue::U8(self.max_relays),
            SettingKey::LoadMoreCount => SettingValue::U64(self.load_more_count),
            SettingKey::Reposts => SettingValue::Bool(self.reposts),
            SettingKey::ShowLongForm => SettingValue::Bool(self.show_long_form),
            SettingKey::ShowMentions => SettingValue::Bool(self.show_mentions),
            SettingKey::DirectMessages => SettingValue::Bool(self.direct_messages),
            SettingKey::FutureAllowanceSecs => SettingValue::U64(self.future_allowance_secs),
            SettingKey::HideMutesEntirely => SettingValue::Bool(self.hide_mutes_entirely),
            SettingKey::Reactions => SettingValue::Bool(self.reactions),
            SettingKey::EnableZapReceipts => SettingValue::Bool(self.enable_zap_receipts),
            SettingKey::ShowMedia => SettingValue::Bool(self.show_media),
            SettingKey::ApproveContentWarning => SettingValue::Bool(self.approve_content_warning),
            SettingKey::ShowDeletedEvents => SettingValue::Bool(self.show_deleted_events),
            SettingKey::AvoidSpamOnUnsafeRelays => SettingValue::Bool(self.avoid_spam_on_unsafe_relays),
            SettingKey::ApplySpamFilterOnIncomingEvents => SettingValue::Bool(self.apply_spam_filter_on_incoming_events),
            SettingKey::ApplySpamFilterOnThreads => SettingValue::Bool(self.apply_spam_filter_on_threads),
            SettingKey::ApplySpamFilterOnInbox => SettingValue::Bool(self.apply_spam_filter_on_inbox),
            SettingKey::ApplySpamFilterOnGlobal => SettingValue::Bool(self.apply_spam_filter_on_global),
            SettingKey::Pow => SettingValue::U8(self.pow),
            SettingKey::SetClientTag => SettingValue::Bool(self.set_client_tag),
            SettingKey::SetUserAgent => SettingValue::Bool(self.set_user_agent),
            SettingKey::DelegateeTag => SettingValue::Text(self.delegatee_tag.clone()),
            SettingKey::MaxFps => SettingValue::U32(self.max_fps),
            SettingKey::RecomputeFeedPeriodically => SettingValue::Bool(self.recompute_feed_periodically),
            SettingKey::FeedRecomputeIntervalMs => SettingValue::U32(self.feed_recompute_interval_ms),
            SettingKey::FeedThreadScrollToMainEvent => SettingValue::Bool(self.feed_thread_scroll_to_main_event),
            SettingKey::ThemeVariant => SettingValue::Text(self.theme_variant.clone()),
            SettingKey::DarkMode => SettingValue::Bool(self.dark_mode),
            SettingKey::FollowOsDarkMode => SettingValue::Bool(self.follow_os_dark_mode),
            SettingKey::OverrideDpi => SettingValue::OptionalU32(self.override_dpi),
            SettingKey::HighlightUnreadEvents => SettingValue::Bool(self.highlight_unread_events),
            SettingKey::FeedNewestAtBottom => SettingValue::Bool(self.feed_newest_at_bottom),
            SettingKey::PostingAreaAtTop => SettingValue::Bool(self.posting_area_at_top),
            SettingKey::StatusBar => SettingValue::Bool(self.status_bar),
            SettingKey::ImageResizeAlgorithm => SettingValue::Text(self.image_resize_algorithm.clone()),
            SettingKey::InertialScrolling => SettingValue::Bool(self.inertial_scrolling),
            SettingKey::MouseAcceleration => SettingValue::F32Bits(self.mouse_acceleration),
            SettingKey::WgpuRenderer => SettingValue::Bool(self.wgpu_renderer),
            SettingKey::RelayListBecomesStaleMinutes => SettingValue::U64(self.relay_list_becomes_stale_minutes),
            SettingKey::MetadataBecomesStaleMinutes => SettingValue::U64(self.metadata_becomes_stale_minutes),
            SettingKey::Nip05BecomesStaleIfValidHours => SettingValue::U64(self.nip05_becomes_stale_if_valid_hours),
            SettingKey::Nip05BecomesStaleIfInvalidMinutes => SettingValue::U64(self.nip05_becomes_stale_if_invalid_minutes),
            SettingKey::AvatarBecomesStaleHours => SettingValue::U64(self.avatar_becomes_stale_hours),
            SettingKey::MediaBecomesStaleHours => SettingValue::U64(self.media_becomes_stale_hours),
            SettingKey::MaxWebsocketMessageSizeKb => SettingValue::Usize(self.max_websocket_message_size_kb),
            SettingKey::MaxWebsocketFrameSizeKb => SettingValue::Usize(self.max_websocket_frame_size_kb),
            SettingKey::WebsocketAcceptUnmaskedFrames => SettingValue::Bool(self.websocket_accept_unmasked_frames),
            SettingKey::WebsocketConnectTimeoutSec => SettingValue::U64(self.websocket_connect_timeout_sec),
            SettingKey::WebsocketPingFrequencySec => SettingValue::U64(self.websocket_ping_frequency_sec),
            SettingKey::FetcherConnectTimeoutSec => SettingValue::U64(self.fetcher_connect_timeout_sec),
            SettingKey::FetcherTimeoutSec => SettingValue::U64(self.fetcher_timeout_sec),
            SettingKey::FetcherMaxRequestsPerHost => SettingValue::Usize(self.fetcher_max_requests_per_host),
            SettingKey::FetcherHostExclusionOnLowErrorSecs => SettingValue::U64(self.fetcher_host_exclusion_on_low_error_secs),
            SettingKey::FetcherHostExclusionOnMedErrorSecs => SettingValue::U64(self.fetcher_host_exclusion_on_med_error_secs),
            SettingKey::FetcherHostExclusionOnHighErrorSecs => SettingValue::U64(self.fetcher_host_exclusion_on_high_error_secs),
            SettingKey::PrunePeriodDays => SettingValue::U64(self.prune_period_days),
            SettingKey::CachePrunePeriodDays => SettingValue::U64(self.cache_prune_period_days),
            SettingKey::BlossomServers => SettingValue::Text(self.blossom_servers.clone()),
        }
    }

    /// A snapshot of what the store holds: each field takes the value stored under its key.
    pub fn load(stored: &SettingsTable) -> (r: UnsavedSettings)
        requires
            stored.wf(),
        ensures
            r@ == stored@,
    {
        let r = UnsavedSettings {
            public_key: stored.optional_public_key_of(SettingKey::PublicKey),
            log_n: stored.u8_of(SettingKey::LogN),
            login_at_startup: stored.bool_of(SettingKey::LoginAtStartup),
            offline: stored.bool_of(SettingKey::Offline),
            load_avatars: stored.bool_of(SettingKey::LoadAvatars),
            load_media: stored.bool_of(SettingKey::LoadMedia),
            check_nip05: stored.bool_of(SettingKey::CheckNip05),
            automatically_fetch_metadata: stored.bool_of(SettingKey::AutomaticallyFetchMetadata),
            relay_connection_requires_approval: stored.bool_of(SettingKey::RelayConnectionRequiresApproval),
            relay_auth_requires_approval: stored.bool_of(SettingKey::RelayAuthRequiresApproval),
            num_relays_per_person: stored.u8_of(SettingKey::NumRelaysPerPerson),
            max_relays: stored.u8_of(SettingKey::MaxRelays),
            load_more_count: stored.u64_of(SettingKey::LoadMoreCount),
            reposts: stored.bool_of(SettingKey::Reposts),
            show_long_form: stored.bool_of(SettingKey::ShowLongForm),
            show_mentions: stored.bool_of(SettingKey::ShowMentions),
            direct_messages: stored.bool_of(SettingKey::DirectMessages),
            future_allowance_secs: stored.u64_of(SettingKey::FutureAllowanceSecs),
            hide_mutes_entirely: stored.bool_of(SettingKey::HideMutesEntirely),
            reactions: stored.bool_of(SettingKey::Reactions),
            enable_zap_receipts: stored.bool_of(SettingKey::EnableZapReceipts),
            show_media: stored.bool_of(SettingKey::ShowMedia),
            approve_content_warning: stored.bool_of(SettingKey::ApproveContentWarning),
            show_deleted_events: stored.bool_of(SettingKey::ShowDeletedEvents),
            avoid_spam_on_unsafe_relays: stored.bool_of(SettingKey::AvoidSpamOnUnsafeRelays),
            apply_spam_filter_on_incoming_events: stored.bool_of(SettingKey::ApplySpamFilterOnIncomingEvents),
            apply_spam_filter_on_threads: stored.bool_of(SettingKey::ApplySpamFilterOnThreads),
            apply_spam_filter_on_inbox: stored.bool_of(SettingKey::ApplySpamFilterOnInbox),
            apply_spam_filter_on_global: stored.bool_of(SettingKey::ApplySpamFilterOnGlobal),
            pow: stored.u8_of(SettingKey::Pow),
            set_client_tag: stored.bool_of(SettingKey::SetClientTag),
            set_user_agent: stored.bool_of(SettingKey::SetUserAgent),
            delegatee_tag: stored.text_of(SettingKey::DelegateeTag),
            max_fps: stored.u32_of(SettingKey::MaxFps),
            recompute_feed_periodically: stored.bool_of(SettingKey::RecomputeFeedPeriodically),
            feed_recompute_interval_ms: stored.u32_of(SettingKey::FeedRecomputeIntervalMs),
            feed_thread_scroll_to_main_event: stored.bool_of(SettingKey::FeedThreadScrollToMainEvent),
            theme_variant: stored.text_of(SettingKey::ThemeVariant),
            dark_mode: stored.bool_of(SettingKey::DarkMode),
            follow_os_dark_mode: stored.bool_of(SettingKey::FollowOsDarkMode),
            override_dpi: stored.optional_u32_of(SettingKey::OverrideDpi),
            highlight_unread_events: stored.bool_of(SettingKey::HighlightUnreadEvents),
            feed_newest_at_bottom: stored.bool_of(SettingKey::FeedNewestAtBottom),
            posting_area_at_top: stored.bool_of(SettingKey::PostingAreaAtTop),
            status_bar: stored.bool_of(SettingKey::StatusBar),
            image_resize_algorithm: stored.text_of(SettingKey::ImageResizeAlgorithm),
            inertial_scrolling: stored.bool_of(SettingKey::InertialScrolling),
            mouse_acceleration: stored.f32_bits_of(SettingKey::MouseAcceleration),
            wgpu_renderer: stored.bool_of(SettingKey::WgpuRenderer),
            relay_list_becomes_stale_minutes: stored.u64_of(SettingKey::RelayListBecomesStaleMinutes),
            metadata_becomes_stale_minutes: stored.u64_of(SettingKey::MetadataBecomesStaleMinutes),
            nip05_becomes_stale_if_valid_hours: stored.u64_of(SettingKey::Nip05BecomesStaleIfValidHours),
            nip05_becomes_stale_if_invalid_minutes: stored.u64_of(SettingKey::Nip05BecomesStaleIfInvalidMinutes),
            avatar_becomes_stale_hours: stored.u64_of(SettingKey::AvatarBecomesStaleHours),
            media_becomes_stale_hours: stored.u64_of(SettingKey::MediaBecomesStaleHours),
            max_websocket_message_size_kb: stored.usize_of(SettingKey::MaxWebsocketMessageSizeKb),
            max_websocket_frame_size_kb: stored.usize_of(SettingKey::MaxWebsocketFrameSizeKb),
            websocket_accept_unmasked_frames: stored.bool_of(SettingKey::WebsocketAcceptUnmaskedFrames),
            websocket_connect_timeout_sec: stored.u64_of(SettingKey::WebsocketConnectTimeoutSec),
            websocket_ping_frequency_sec: stored.u64_of(SettingKey::WebsocketPingFrequencySec),
            fetcher_connect_timeout_sec: stored.u64_of(SettingKey::FetcherConnectTimeoutSec),
            fetcher_timeout_sec: stored.u64_of(SettingKey::FetcherTimeoutSec),
            fetcher_max_requests_per_host: stored.usize_of(SettingKey::FetcherMaxRequestsPerHost),
            fetcher_host_exclusion_on_low_error_secs: stored.u64_of(SettingKey::FetcherHostExclusionOnLowErrorSecs),
            fetcher_host_exclusion_on_med_error_secs: stored.u64_of(SettingKey::FetcherHostExclusionOnMedErrorSecs),
            fetcher_host_exclusion_on_high_error_secs: stored.u64_of(SettingKey::FetcherHostExclusionOnHighErrorSecs),
            prune_period_days: stored.u64_of(SettingKey::PrunePeriodDays),
            cache_prune_period_days: stored.u64_of(SettingKey::CachePrunePeriodDays),
            blossom_servers: stored.text_of(SettingKey::BlossomServers),
        };
        proof {
            assert forall|k: SettingKey| #[trigger] r.spec_get(k) == stored@[k.spec_index()] by {
                match k {
                    SettingKey::PublicKey => {},
                    SettingKey::LogN => {},
                    SettingKey::LoginAtStartup => {},
                    SettingKey::Offline => {},
                    SettingKey::LoadAvatars => {},
                    SettingKey::LoadMedia => {},
                    SettingKey::CheckNip05 => {},
                    SettingKey::AutomaticallyFetchMetadata => {},
                    SettingKey::RelayConnectionRequiresApproval => {},
                    SettingKey::RelayAuthRequiresApproval => {},
                    SettingKey::NumRelaysPerPerson => {},
                    SettingKey::MaxRelays => {},
                    SettingKey::LoadMoreCount => {},
                    SettingKey::Reposts => {},
                    SettingKey::ShowLongForm => {},
                    SettingKey::ShowMentions => {},
                    SettingKey::DirectMessages => {},
                    SettingKey::FutureAllowanceSecs => {},
                    SettingKey::HideMutesEntirely => {},
                    SettingKey::Reactions => {},
                    SettingKey::EnableZapReceipts => {},
                    SettingKey::ShowMedia => {},
                    SettingKey::ApproveContentWarning => {},
                    SettingKey::ShowDeletedEvents => {},
                    SettingKey::AvoidSpamOnUnsafeRelays => {},
                    SettingKey::ApplySpamFilterOnIncomingEvents => {},
                    SettingKey::ApplySpamFilterOnThreads => {},
                    SettingKey::ApplySpamFilterOnInbox => {},
                    SettingKey::ApplySpamFilterOnGlobal => {},
                    SettingKey::Pow => {},
                    SettingKey::SetClientTag => {},
                    SettingKey::SetUserAgent => {},
                    SettingKey::DelegateeTag => {},
                    SettingKey::MaxFps => {},
                    SettingKey::RecomputeFeedPeriodically => {},
                    SettingKey::FeedRecomputeIntervalMs => {},
                    SettingKey::FeedThreadScrollToMainEvent => {},
                    SettingKey::ThemeVariant => {},
                    SettingKey::DarkMode => {},
                    SettingKey::FollowOsDarkMode => {},
                    SettingKey::OverrideDpi => {},
                    SettingKey::HighlightUnreadEvents => {},
                    SettingKey::FeedNewestAtBottom => {},
                    SettingKey::PostingAreaAtTop => {},
                    SettingKey::StatusBar => {},
                    SettingKey::ImageResizeAlgorithm => {},
                    SettingKey::InertialScrolling => {},
                    SettingKey::MouseAcceleration => {},
                    SettingKey::WgpuRenderer => {},
                    SettingKey::RelayListBecomesStaleMinutes => {},
                    SettingKey::MetadataBecomesStaleMinutes => {},
                    SettingKey::Nip05BecomesStaleIfValidHours => {},
                    SettingKey::Nip05BecomesStaleIfInvalidMinutes => {},
                    SettingKey::AvatarBecomesStaleHours => {},
                    SettingKey::MediaBecomesStaleHours => {},
                    SettingKey::MaxWebsocketMessageSizeKb => {},
                    SettingKey::MaxWebsocketFrameSizeKb => {},
                    SettingKey::WebsocketAcceptUnmaskedFrames => {},
                    SettingKey::WebsocketConnectTimeoutSec => {},
                    SettingKey::WebsocketPingFrequencySec => {},
                    SettingKey::FetcherConnectTimeoutSec => {},
                    SettingKey::FetcherTimeoutSec => {},
                    SettingKey::FetcherMaxRequestsPerHost => {},
                    SettingKey::FetcherHostExclusionOnLowErrorSecs => {},
                    SettingKey::FetcherHostExclusionOnMedErrorSecs => {},
                    SettingKey::FetcherHostExclusionOnHighErrorSecs => {},
                    SettingKey::PrunePeriodDays => {},
                    SettingKey::CachePrunePeriodDays => {},
                    SettingKey::BlossomServers => {},
                }
            }
            r.lemma_agrees_with_view(stored@);
        }
        r
    }

    /// A snapshot of the catalog's defaults. Each field takes its key's default, but for
    /// `cache_prune_period_days`, which takes the default of `prune_period_days`.
    pub fn with_defaults(defaults: &SettingsTable) -> (r: UnsavedSettings)
        requires
            defaults.wf(),
        ensures
            forall|k: SettingKey|
                k != SettingKey::CachePrunePeriodDays ==> #[trigger] r.spec_get(k)
                    == defaults@[k.spec_index()],
            r.spec_get(SettingKey::CachePrunePeriodDays)
                == defaults@[SettingKey::PrunePeriodDays.spec_index()],
    {
        let loaded = UnsavedSettings::load(defaults);
        proof {
            loaded.lemma_view_agrees(defaults@);
        }
        let r = UnsavedSettings {
            cache_prune_period_days: defaults.u64_of(SettingKey::PrunePeriodDays),
            ..loaded
        };
        proof {
            lemma_other_fields_kept(loaded, r);
        }
        r
    }

    /// A snapshot agrees, key by key, with its view.
    pub proof fn lemma_view_agrees(self, values: Seq<SettingValue>)
        requires
            self@ == values,
        ensures
            self.agrees_with(values),
    {
        lemma_key_positions();
        assert forall|k: SettingKey| #[trigger] self.spec_get(k) == values[k.spec_index()] by {
            assert(self@[k.spec_index()] == self.spec_get(key_at(k.spec_index())));
        }
    }

    /// A snapshot that agrees, key by key, with a sequence of catalog length has that
    /// sequence as its view.
    pub proof fn lemma_agrees_with_view(self, values: Seq<SettingValue>)
        requires
            values.len() == SETTING_COUNT,
            self.agrees_with(values),
        ensures
            self@ == values,
    {
        lemma_key_positions();
        assert forall|i: int| 0 <= i < SETTING_COUNT implies #[trigger] self@[i] == values[i] by {
            assert(self.spec_get(key_at(i)) == values[key_at(i).spec_index()]);
        }
        assert(self@ =~= values);
    }
}

/// Each field holds a value of its key's type, at its key's position in the view: the
/// snapshot has no field without a key and no key without a field.
pub proof fn lemma_fields_match_keys(s: UnsavedSettings)
    ensures
        s@.len() == SETTING_COUNT,
        forall|k: SettingKey| #[trigger] s.spec_get(k).spec_kind() == k.spec_kind(),
        forall|k: SettingKey| #[trigger] s@[k.spec_index()] == s.spec_get(k),
{
    lemma_key_positions();
    assert forall|k: SettingKey| #[trigger] s.spec_get(k).spec_kind() == k.spec_kind() by {
        match k {
            SettingKey::PublicKey => {},
            SettingKey::LogN => {},
            SettingKey::LoginAtStartup => {},
            SettingKey::Offline => {},
            SettingKey::LoadAvatars => {},
            SettingKey::LoadMedia => {},
            SettingKey::CheckNip05 => {},
            SettingKey::AutomaticallyFetchMetadata => {},
            SettingKey::RelayConnectionRequiresApproval => {},
            SettingKey::RelayAuthRequiresApproval => {},
            SettingKey::NumRelaysPerPerson => {},
            SettingKey::MaxRelays => {},
            SettingKey::LoadMoreCount => {},
            SettingKey::Reposts => {},
            SettingKey::ShowLongForm => {},
            SettingKey::ShowMentions => {},
            SettingKey::DirectMessages => {},
            SettingKey::FutureAllowanceSecs => {},
            SettingKey::HideMutesEntirely => {},
            SettingKey::Reactions => {},
            SettingKey::EnableZapReceipts => {},
            SettingKey::ShowMedia => {},
            SettingKey::ApproveContentWarning => {},
            SettingKey::ShowDeletedEvents => {},
            SettingKey::AvoidSpamOnUnsafeRelays => {},
            SettingKey::ApplySpamFilterOnIncomingEvents => {},
            SettingKey::ApplySpamFilterOnThreads => {},
            SettingKey::ApplySpamFilterOnInbox => {},
            SettingKey::ApplySpamFilterOnGlobal => {},
            SettingKey::Pow => {},
            SettingKey::SetClientTag => {},
            SettingKey::SetUserAgent => {},
            SettingKey::DelegateeTag => {},
            SettingKey::MaxFps => {},
            SettingKey::RecomputeFeedPeriodically => {},
            SettingKey::FeedRecomputeIntervalMs => {},
            SettingKey::FeedThreadScrollToMainEvent => {},
            SettingKey::ThemeVariant => {},
            SettingKey::DarkMode => {},
            SettingKey::FollowOsDarkMode => {},
            SettingKey::OverrideDpi => {},
            SettingKey::HighlightUnreadEvents => {},
            SettingKey::FeedNewestAtBottom => {},
            SettingKey::PostingAreaAtTop => {},
            SettingKey::StatusBar => {},
            SettingKey::ImageResizeAlgorithm => {},
            SettingKey::InertialScrolling => {},
            SettingKey::MouseAcceleration => {},
            SettingKey::WgpuRenderer => {},
            SettingKey::RelayListBecomesStaleMinutes => {},
            SettingKey::MetadataBecomesStaleMinutes => {},
            SettingKey::Nip05BecomesStaleIfValidHours => {},
            SettingKey::Nip05BecomesStaleIfInvalidMinutes => {},
            SettingKey::AvatarBecomesStaleHours => {},
            SettingKey::MediaBecomesStaleHours => {},
            SettingKey::MaxWebsocketMessageSizeKb => {},
            SettingKey::MaxWebsocketFrameSizeKb => {},
            SettingKey::WebsocketAcceptUnmaskedFrames => {},
            SettingKey::WebsocketConnectTimeoutSec => {},
            SettingKey::WebsocketPingFrequencySec => {},
            SettingKey::FetcherConnectTimeoutSec => {},
            SettingKey::FetcherTimeoutSec => {},
            SettingKey::FetcherMaxRequestsPerHost => {},
            SettingKey::FetcherHostExclusionOnLowErrorSecs => {},
            SettingKey::FetcherHostExclusionOnMedErrorSecs => {},
            SettingKey::FetcherHostExclusionOnHighErrorSecs => {},
            SettingKey::PrunePeriodDays => {},
            SettingKey::CachePrunePeriodDays => {},
            SettingKey::BlossomServers => {},
        }
    }
}

/// Replacing `cache_prune_period_days` leaves every other field as it was.
proof fn lemma_other_fields_kept(a: UnsavedSettings, b: UnsavedSettings)
    requires
        b == (UnsavedSettings { cache_prune_period_days: b.cache_prune_period_days, ..a }),
    ensures
        forall|k: SettingKey|
            k != SettingKey::CachePrunePeriodDays ==> #[trigger] b.spec_get(k) == a.spec_get(k),
{
    assert forall|k: SettingKey| k != SettingKey::CachePrunePeriodDays implies #[trigger] b.spec_get(k)
        == a.spec_get(k) by {
        match k {
            SettingKey::PublicKey => {},
            SettingKey::LogN => {},
            SettingKey::LoginAtStartup => {},
            SettingKey::Offline => {},
            SettingKey::LoadAvatars => {},
            SettingKey::LoadMedia => {},
            SettingKey::CheckNip05 => {},
            SettingKey::AutomaticallyFetchMetadata => {},
            SettingKey::RelayConnectionRequiresApproval => {},
            SettingKey::RelayAuthRequiresApproval => {},
            SettingKey::NumRelaysPerPerson => {},
            SettingKey::MaxRelays => {},
            SettingKey::LoadMoreCount => {},
            SettingKey::Reposts => {},
            SettingKey::ShowLongForm => {},
            SettingKey::ShowMentions => {},
            SettingKey::DirectMessages => {},
            SettingKey::FutureAllowanceSecs => {},
            SettingKey::HideMutesEntirely => {},
            SettingKey::Reactions => {},
            SettingKey::EnableZapReceipts => {},
            SettingKey::ShowMedia => {},
            SettingKey::ApproveContentWarning => {},
            SettingKey::ShowDeletedEvents => {},
            SettingKey::AvoidSpamOnUnsafeRelays => {},
            SettingKey::ApplySpamFilterOnIncomingEvents => {},
            SettingKey::ApplySpamFilterOnThreads => {},
            SettingKey::ApplySpamFilterOnInbox => {},
            SettingKey::ApplySpamFilterOnGlobal => {},
            SettingKey::Pow => {},
            SettingKey::SetClientTag => {},
            SettingKey::SetUserAgent => {},
            SettingKey::DelegateeTag => {},
            SettingKey::MaxFps => {},
            SettingKey::RecomputeFeedPeriodically => {},
            SettingKey::FeedRecomputeIntervalMs => {},
            SettingKey::FeedThreadScrollToMainEvent => {},
            SettingKey::ThemeVariant => {},
            SettingKey::DarkMode => {},
            SettingKey::FollowOsDarkMode => {},
            SettingKey::OverrideDpi => {},
            SettingKey::HighlightUnreadEvents => {},
            SettingKey::FeedNewestAtBottom => {},
            SettingKey::PostingAreaAtTop => {},
            SettingKey::StatusBar => {},
            SettingKey::ImageResizeAlgorithm => {},
            SettingKey::InertialScrolling => {},
            SettingKey::MouseAcceleration => {},
            SettingKey::WgpuRenderer => {},
            SettingKey::RelayListBecomesStaleMinutes => {},
            SettingKey::MetadataBecomesStaleMinutes => {},
            SettingKey::Nip05BecomesStaleIfValidHours => {},
            SettingKey::Nip05BecomesStaleIfInvalidMinutes => {},
            SettingKey::AvatarBecomesStaleHours => {},
            SettingKey::MediaBecomesStaleHours => {},
            SettingKey::MaxWebsocketMessageSizeKb => {},
            SettingKey::MaxWebsocketFrameSizeKb => {},
            SettingKey::WebsocketAcceptUnmaskedFrames => {},
            SettingKey::WebsocketConnectTimeoutSec => {},
            SettingKey::WebsocketPingFrequencySec => {},
            SettingKey::FetcherConnectTimeoutSec => {},
            SettingKey::FetcherTimeoutSec => {},
            SettingKey::FetcherMaxRequestsPerHost => {},
            SettingKey::FetcherHostExclusionOnLowErrorSecs => {},
            SettingKey::FetcherHostExclusionOnMedErrorSecs => {},
            SettingKey::FetcherHostExclusionOnHighErrorSecs => {},
            SettingKey::PrunePeriodDays => {},
            SettingKey::CachePrunePeriodDays => {},
            SettingKey::BlossomServers => {},
        }
    }
}

/// Two snapshots with the same view are the same snapshot, field for field.
pub proof fn lemma_view_determines_fields(a: UnsavedSettings, b: UnsavedSettings)
    requires
        a@ == b@,
    ensures
        a == b,
{
    lemma_key_positions();
    assert(a.spec_get(SettingKey::PublicKey) == a@[SettingKey::PublicKey.spec_index()]);
    assert(a.spec_get(SettingKey::LogN) == a@[SettingKey::LogN.spec_index()]);
    assert(a.spec_get(SettingKey::LoginAtStartup) == a@[SettingKey::LoginAtStartup.spec_index()]);
    assert(a.spec_get(SettingKey::Offline) == a@[SettingKey::Offline.spec_index()]);
    assert(a.spec_get(SettingKey::LoadAvatars) == a@[SettingKey::LoadAvatars.spec_index()]);
    assert(a.spec_get(SettingKey::LoadMedia) == a@[SettingKey::LoadMedia.spec_index()]);
    assert(a.spec_get(SettingKey::CheckNip05) == a@[SettingKey::CheckNip05.spec_index()]);
    assert(a.spec_get(SettingKey::AutomaticallyFetchMetadata) == a@[SettingKey::AutomaticallyFetchMetadata.spec_index()]);
    assert(a.spec_get(SettingKey::RelayConnectionRequiresApproval) == a@[SettingKey::RelayConnectionRequiresApproval.spec_index()]);
    assert(a.spec_get(SettingKey::RelayAuthRequiresApproval) == a@[SettingKey::RelayAuthRequiresApproval.spec_index()]);
    assert(a.spec_get(SettingKey::NumRelaysPerPerson) == a@[SettingKey::NumRelaysPerPerson.spec_index()]);
    assert(a.spec_get(SettingKey::MaxRelays) == a@[SettingKey::MaxRelays.spec_index()]);
    assert(a.spec_get(SettingKey::LoadMoreCount) == a@[SettingKey::LoadMoreCount.spec_index()]);
    assert(a.spec_get(SettingKey::Reposts) == a@[SettingKey::Reposts.spec_index()]);
    assert(a.spec_get(SettingKey::ShowLongForm) == a@[SettingKey::ShowLongForm.spec_index()]);
    assert(a.spec_get(SettingKey::ShowMentions) == a@[SettingKey::ShowMentions.spec_index()]);
    assert(a.spec_get(SettingKey::DirectMessages) == a@[SettingKey::DirectMessages.spec_index()]);
    assert(a.spec_get(SettingKey::FutureAllowanceSecs) == a@[SettingKey::FutureAllowanceSecs.spec_index()]);
    assert(a.spec_get(SettingKey::HideMutesEntirely) == a@[SettingKey::HideMutesEntirely.spec_index()]);
    assert(a.spec_get(SettingKey::Reactions) == a@[SettingKey::Reactions.spec_index()]);
    assert(a.spec_get(SettingKey::EnableZapReceipts) == a@[SettingKey::EnableZapReceipts.spec_index()]);
    assert(a.spec_get(SettingKey::ShowMedia) == a@[SettingKey::ShowMedia.spec_index()]);
    assert(a.spec_get(SettingKey::ApproveContentWarning) == a@[SettingKey::ApproveContentWarning.spec_index()]);
    assert(a.spec_get(SettingKey::ShowDeletedEvents) == a@[SettingKey::ShowDeletedEvents.spec_index()]);
    assert(a.spec_get(SettingKey::AvoidSpamOnUnsafeRelays) == a@[SettingKey::AvoidSpamOnUnsafeRelays.spec_index()]);
    assert(a.spec_get(SettingKey::ApplySpamFilterOnIncomingEvents) == a@[SettingKey::ApplySpamFilterOnIncomingEvents.spec_index()]);
    assert(a.spec_get(SettingKey::ApplySpamFilterOnThreads) == a@[SettingKey::ApplySpamFilterOnThreads.spec_index()]);
    assert(a.spec_get(SettingKey::ApplySpamFilterOnInbox) == a@[SettingKey::ApplySpamFilterOnInbox.spec_index()]);
    assert(a.spec_get(SettingKey::ApplySpamFilterOnGlobal) == a@[SettingKey::ApplySpamFilterOnGlobal.spec_index()]);
    assert(a.spec_get(SettingKey::Pow) == a@[SettingKey::Pow.spec_index()]);
    assert(a.spec_get(SettingKey::SetClientTag) == a@[SettingKey::SetClientTag.spec_index()]);
    assert(a.spec_get(SettingKey::SetUserAgent) == a@[SettingKey::SetUserAgent.spec_index()]);
    assert(a.spec_get(SettingKey::DelegateeTag) == a@[SettingKey::DelegateeTag.spec_index()]);
    assert(a.spec_get(SettingKey::MaxFps) == a@[SettingKey::MaxFps.spec_index()]);
    assert(a.spec_get(SettingKey::RecomputeFeedPeriodically) == a@[SettingKey::RecomputeFeedPeriodically.spec_index()]);
    assert(a.spec_get(SettingKey::FeedRecomputeIntervalMs) == a@[SettingKey::FeedRecomputeIntervalMs.spec_index()]);
    assert(a.spec_get(SettingKey::FeedThreadScrollToMainEvent) == a@[SettingKey::FeedThreadScrollToMainEvent.spec_index()]);
    assert(a.spec_get(SettingKey::ThemeVariant) == a@[SettingKey::ThemeVariant.spec_index()]);
    assert(a.spec_get(SettingKey::DarkMode) == a@[SettingKey::DarkMode.spec_index()]);
    assert(a.spec_get(SettingKey::FollowOsDarkMode) == a@[SettingKey::FollowOsDarkMode.spec_index()]);
    assert(a.spec_get(SettingKey::OverrideDpi) == a@[SettingKey::OverrideDpi.spec_index()]);
    assert(a.spec_get(SettingKey::HighlightUnreadEvents) == a@[SettingKey::HighlightUnreadEvents.spec_index()]);
    assert(a.spec_get(SettingKey::FeedNewestAtBottom) == a@[SettingKey::FeedNewestAtBottom.spec_index()]);
    assert(a.spec_get(SettingKey::PostingAreaAtTop) == a@[SettingKey::PostingAreaAtTop.spec_index()]);
    assert(a.spec_get(SettingKey::StatusBar) == a@[SettingKey::StatusBar.spec_index()]);
    assert(a.spec_get(SettingKey::ImageResizeAlgorithm) == a@[SettingKey::ImageResizeAlgorithm.spec_index()]);
    assert(a.spec_get(SettingKey::InertialScrolling) == a@[SettingKey::InertialScrolling.spec_index()]);
    assert(a.spec_get(SettingKey::MouseAcceleration) == a@[SettingKey::MouseAcceleration.spec_index()]);
    assert(a.spec_get(SettingKey::WgpuRenderer) == a@[SettingKey::WgpuRenderer.spec_index()]);
    assert(a.spec_get(SettingKey::RelayListBecomesStaleMinutes) == a@[SettingKey::RelayListBecomesStaleMinutes.spec_index()]);
    assert(a.spec_get(SettingKey::MetadataBecomesStaleMinutes) == a@[SettingKey::MetadataBecomesStaleMinutes.spec_index()]);
    assert(a.spec_get(SettingKey::Nip05BecomesStaleIfValidHours) == a@[SettingKey::Nip05BecomesStaleIfValidHours.spec_index()]);
    assert(a.spec_get(SettingKey::Nip05BecomesStaleIfInvalidMinutes) == a@[SettingKey::Nip05BecomesStaleIfInvalidMinutes.spec_index()]);
    assert(a.spec_get(SettingKey::AvatarBecomesStaleHours) == a@[SettingKey::AvatarBecomesStaleHours.spec_index()]);
    assert(a.spec_get(SettingKey::MediaBecomesStaleHours) == a@[SettingKey::MediaBecomesStaleHours.spec_index()]);
    assert(a.spec_get(SettingKey::MaxWebsocketMessageSizeKb) == a@[SettingKey::MaxWebsocketMessageSizeKb.spec_index()]);
    assert(a.spec_get(SettingKey::MaxWebsocketFrameSizeKb) == a@[SettingKey::MaxWebsocketFrameSizeKb.spec_index()]);
    assert(a.spec_get(SettingKey::WebsocketAcceptUnmaskedFrames) == a@[SettingKey::WebsocketAcceptUnmaskedFrames.spec_index()]);
    assert(a.spec_get(SettingKey::WebsocketConnectTimeoutSec) == a@[SettingKey::WebsocketConnectTimeoutSec.spec_index()]);
    assert(a.spec_get(SettingKey::WebsocketPingFrequencySec) == a@[SettingKey::WebsocketPingFrequencySec.spec_index()]);
    assert(a.spec_get(SettingKey::FetcherConnectTimeoutSec) == a@[SettingKey::FetcherConnectTimeoutSec.spec_index()]);
    assert(a.spec_get(SettingKey::FetcherTimeoutSec) == a@[SettingKey::FetcherTimeoutSec.spec_index()]);
    assert(a.spec_get(SettingKey::FetcherMaxRequestsPerHost) == a@[SettingKey::FetcherMaxRequestsPerHost.spec_index()]);
    assert(a.spec_get(SettingKey::FetcherHostExclusionOnLowErrorSecs) == a@[SettingKey::FetcherHostExclusionOnLowErrorSecs.spec_index()]);
    assert(a.spec_get(SettingKey::FetcherHostExclusionOnMedErrorSecs) == a@[SettingKey::FetcherHostExclusionOnMedErrorSecs.spec_index()]);
    assert(a.spec_get(SettingKey::FetcherHostExclusionOnHighErrorSecs) == a@[SettingKey::FetcherHostExclusionOnHighErrorSecs.spec_index()]);
    assert(a.spec_get(SettingKey::PrunePeriodDays) == a@[SettingKey::PrunePeriodDays.spec_index()]);
    assert(a.spec_get(SettingKey::CachePrunePeriodDays) == a@[SettingKey::CachePrunePeriodDays.spec_index()]);
    assert(a.spec_get(SettingKey::BlossomServers) == a@[SettingKey::BlossomServers.spec_index()]);
}

} // verus!
