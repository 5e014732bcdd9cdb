//! The settings that the start and the event loop read.

use std::sync::Arc;
use vstd::prelude::*;

verus! {

/// The `[ui]` table.
#[derive(Debug, PartialEq, Eq)]
pub struct UiConfig {
    pub theme: String,
}

/// The `[llm]` table: where requests go, and with which key.
#[derive(Debug, PartialEq, Eq)]
pub struct LlmConfig {
    pub endpoint: String,
    pub model: String,
    pub api_key: String,
    pub max_tokens: u32,
}

/// The `[tools]` table: what the model may do in the workspace. `rest` holds its other
/// entries, which are only passed on.
#[derive(Debug, PartialEq, Eq)]
pub struct ToolsConfig<R> {
    pub enabled: bool,
    pub workspace: String,
    pub require_approval: bool,
    pub max_steps: u32,
    pub rest: Arc<R>,
}

/// The `[quota]` table.
#[derive(Clone, Copy, Debug, PartialEq, Eq, Structural)]
pub struct QuotaConfig {
    pub enabled: bool,
    pub include_usage: bool,
}

/// The `[free_tier]` table: this device's standing with the gateway.
#[derive(Debug, PartialEq, Eq)]
pub struct FreeTierConfig {
    pub enabled: bool,
    pub device_token: String,
    pub fallback_id: String,
}

/// The settings of the program. `rest` holds all the others, such as the daily limits and the
/// gateway, which are only passed on.
#[derive(Debug, PartialEq, Eq)]
pub struct Config<R> {
    pub ui: UiConfig,
    pub llm: LlmConfig,
    pub tools: ToolsConfig<R>,
    pub quota: QuotaConfig,
    pub free_tier: FreeTierConfig,
    pub rest: Arc<R>,
}

/// The view of `LlmConfig`.
pub struct LlmConfigView {
    pub endpoint: Seq<char>,
    pub model: Seq<char>,
    pub api_key: Seq<char>,
    pub max_tokens: u32,
}

/// The view of `ToolsConfig`.
pub struct ToolsConfigView<R> {
    pub enabled: bool,
    pub workspace: Seq<char>,
    pub require_approval: bool,
    pub max_steps: u32,
    pub rest: Arc<R>,
}

/// The view of `FreeTierConfig`.
pub struct FreeTierConfigView {
    pub enabled: bool,
    pub device_token: Seq<char>,
    pub fallback_id: Seq<char>,
}

/// The view of `Config`. The `[ui]` table is its theme.
pub struct ConfigView<R> {
    pub theme: Seq<char>,
    pub llm: LlmConfigView,
    pub tools: ToolsConfigView<R>,
    pub quota: QuotaConfig,
    pub free_tier: FreeTierConfigView,
    pub rest: Arc<R>,
}

impl View for LlmConfig {
    type V = LlmConfigView;

    open spec fn view(&self) -> LlmConfigView {
        LlmConfigView {
            endpoint: self.endpoint@,
            model: self.model@,
            api_key: self.api_key@,
            max_tokens: self.max_tokens,
        }
    }
}

impl<R> View for ToolsConfig<R> {
    type V = ToolsConfigView<R>;

    open spec fn view(&self) -> ToolsConfigView<R> {
        ToolsConfigView {
            enabled: self.enabled,
            workspace: self.workspace@,
            require_approval: self.require_approval,
            max_steps: self.max_steps,
            rest: self.rest,
        }
    }
}

impl View for FreeTierConfig {
    type V = FreeTierConfigView;

    open spec fn view(&self) -> FreeTierConfigView {
        FreeTierConfigView {
            enabled: self.enabled,
            device_token: self.device_token@,
            fallback_id: self.fallback_id@,
        }
    }
}

impl<R> View for Config<R> {
    type V = ConfigView<R>;

    open spec fn view(&self) -> ConfigView<R> {
        ConfigView {
            theme: self.ui.theme@,
            llm: self.llm@,
            tools: self.tools@,
            quota: self.quota,
            free_tier: self.free_tier@,
            rest: self.rest,
        }
    }
}

impl Clone for UiConfig {
    fn clone(&self) -> (copy: Self)
        ensures
            copy == *self,
    {
        UiConfig { theme: self.theme.clone() }
    }
}

impl Clone for LlmConfig {
    fn clone(&self) -> (copy: Self)
        ensures
            copy == *self,
    {
        LlmConfig {
            endpoint: self.endpoint.clone(),
            model: self.model.clone(),
            api_key: self.api_key.clone(),
            max_tokens: self.max_tokens,
        }
    }
}

impl<R> Clone for ToolsConfig<R> {
    fn clone(&self) -> (copy: Self)
        ensures
            copy == *self,
    {
        ToolsConfig {
            enabled: self.enabled,
            workspace: self.workspace.clone(),
            require_approval: self.require_approval,
            max_steps: self.max_steps,
            rest: self.rest.clone(),
        }
    }
}

impl Clone for FreeTierConfig {
    fn clone(&self) -> (copy: Self)
        ensures
            copy == *self,
    {
        FreeTierConfig {
            enabled: self.enabled,
            device_token: self.device_token.clone(),
            fallback_id: self.fallback_id.clone(),
        }
    }
}

impl<R> Clone for Config<R> {
    fn clone(&self) -> (copy: Self)
        ensures
            copy == *self,
    {
        Config {
            ui: self.ui.clone(),
            llm: self.llm.clone(),
            tools: self.tools.clone(),
            quota: self.quota,
            free_tier: self.free_tier.clone(),
            rest: self.rest.clone(),
        }
    }
}

} // verus!
