//! The channel of the offline build: which services it knows of.
use vstd::prelude::*;

verus! {

/// The channel that a build is released on.
#[derive(Debug, Clone, Copy, PartialEq, Eq, Structural)]
pub enum Channel {
    Oss,
    Stable,
}

/// Whether a part of the product works on its own or with the hosted services.
#[derive(Debug, Clone, Copy, PartialEq, Eq, Structural)]
pub enum Profile {
    Standalone,
    Hosted,
}

/// The name by which the system knows the application.
#[derive(Debug)]
pub struct AppId {
    pub qualifier: String,
    pub organization: String,
    pub application: String,
}

/// What a channel is configured with. A service that is `None` is not contacted.
#[derive(Debug)]
pub struct ChannelConfig {
    pub app_id: AppId,
    pub logfile_name: String,
    pub server_config: Profile,
    pub oz_config: Profile,
    pub telemetry_config: Option<String>,
    pub crash_reporting_config: Option<String>,
    pub autoupdate_config: Option<String>,
    pub mcp_static_config: Option<String>,
}

/// A channel with its configuration and the profile of the product on it.
#[derive(Debug)]
pub struct ChannelState {
    pub channel: Channel,
    pub config: ChannelConfig,
    pub product_profile: Profile,
}

impl ChannelState {
    /// No part of the product reaches for a service outside this device.
    pub open spec fn is_offline(self) -> bool {
        &&& self.product_profile == Profile::Standalone
        &&& self.config.server_config == Profile::Standalone
        &&& self.config.oz_config == Profile::Standalone
        &&& self.config.telemetry_config is None
        &&& self.config.crash_reporting_config is None
        &&& self.config.autoupdate_config is None
        &&& self.config.mcp_static_config is None
    }
}

/// The channel of the offline build.
pub fn offline_channel() -> (state: ChannelState)
    ensures
        state.is_offline(),
        state.channel == Channel::Oss,
        state.product_profile == Profile::Standalone,
        state.config.server_config == Profile::Standalone,
        state.config.oz_config == Profile::Standalone,
        state.config.telemetry_config is None,
        state.config.crash_reporting_config is None,
        state.config.autoupdate_config is None,
        state.config.mcp_static_config is None,
        state.config.app_id.qualifier@ == "offline"@,
        state.config.app_id.organization@ == "warp"@,
        state.config.app_id.application@ == "EWarp"@,
        state.config.logfile_name@ == "ewarp.log"@,
{
    ChannelState {
        channel: Channel::Oss,
        config: ChannelConfig {
            app_id: AppId {
                qualifier: "offline".to_owned(),
                organization: "warp".to_owned(),
                application: "EWarp".to_owned(),
            },
            logfile_name: "ewarp.log".to_owned(),
            server_config: Profile::Standalone,
            oz_config: Profile::Standalone,
            telemetry_config: None,
            crash_reporting_config: None,
            autoupdate_config: None,
            mcp_static_config: None,
        },
        product_profile: Profile::Standalone,
    }
}

} // verus!
