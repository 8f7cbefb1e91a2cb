//! The configuration schema.
//!
//! Every section has a default, stated in its contract. Loading a file is
//! left to the caller; this module only defines what a configuration holds.

use vstd::prelude::*;
use vstd::string::StringExecFns;
use crate::event::event::{copy_opt_text, opt_text};

verus! {

/// A model and the number of tokens it may produce.
#[derive(Debug, Clone, PartialEq, Eq)]
pub struct ModelInfo {
    pub name: String,
    pub max_tokens: u32,
}

/// Mathematical view of [`ModelInfo`].
pub struct ModelInfoView {
    pub name: Seq<char>,
    pub max_tokens: u32,
}

impl View for ModelInfo {
    type V = ModelInfoView;

    open spec fn view(&self) -> ModelInfoView {
        ModelInfoView { name: self.name@, max_tokens: self.max_tokens }
    }
}

impl ModelInfo {
    /// The model used when nothing else is configured.
    pub open spec fn default_view() -> ModelInfoView {
        ModelInfoView { name: "Qwen2.5:7b"@, max_tokens: 4096 }
    }

    /// An independent copy with the same view.
    pub fn duplicate(&self) -> (out: ModelInfo)
        ensures
            out@ == self@,
    {
        ModelInfo { name: self.name.clone(), max_tokens: self.max_tokens }
    }
}

impl Default for ModelInfo {
    fn default() -> (m: ModelInfo)
        ensures
            m@ == ModelInfo::default_view(),
    {
        ModelInfo { name: String::from_str("Qwen2.5:7b"), max_tokens: 4096 }
    }
}

/// Settings of the inference provider.
#[derive(Debug, Clone, PartialEq, Eq)]
pub struct AiConfig {
    pub provider: String,
    pub model: String,
    pub endpoint: Option<String>,
    pub api_key: Option<String>,
    pub ollama_endpoint: Option<String>,
    pub timeout_seconds: u64,
    pub default_model: ModelInfo,
    pub coder_model: ModelInfo,
    pub embed_model: ModelInfo,
    pub max_tokens: u32,
}

/// Mathematical view of [`AiConfig`].
pub struct AiConfigView {
    pub provider: Seq<char>,
    pub model: Seq<char>,
    pub endpoint: Option<Seq<char>>,
    pub api_key: Option<Seq<char>>,
    pub ollama_endpoint: Option<Seq<char>>,
    pub timeout_seconds: u64,
    pub default_model: ModelInfoView,
    pub coder_model: ModelInfoView,
    pub embed_model: ModelInfoView,
    pub max_tokens: u32,
}

impl View for AiConfig {
    type V = AiConfigView;

    open spec fn view(&self) -> AiConfigView {
        AiConfigView {
            provider: self.provider@,
            model: self.model@,
            endpoint: opt_text(self.endpoint),
            api_key: opt_text(self.api_key),
            ollama_endpoint: opt_text(self.ollama_endpoint),
            timeout_seconds: self.timeout_seconds,
            default_model: self.default_model@,
            coder_model: self.coder_model@,
            embed_model: self.embed_model@,
            max_tokens: self.max_tokens,
        }
    }
}

impl AiConfig {
    /// A local provider with a one-minute timeout.
    pub open spec fn default_view() -> AiConfigView {
        AiConfigView {
            provider: "ollama"@,
            model: "Qwen2.5:7b"@,
            endpoint: None,
            api_key: None,
            ollama_endpoint: Some("http://127.0.0.1:11434"@),
            timeout_seconds: 60,
            default_model: ModelInfo::default_view(),
            coder_model: ModelInfo::default_view(),
            embed_model: ModelInfoView { name: "nomic-embed-text"@, max_tokens: 2048 },
            max_tokens: 4096,
        }
    }

    /// An independent copy with the same view.
    pub fn duplicate(&self) -> (out: AiConfig)
        ensures
            out@ == self@,
    {
        AiConfig {
            provider: self.provider.clone(),
            model: self.model.clone(),
            endpoint: copy_opt_text(&self.endpoint),
            api_key: copy_opt_text(&self.api_key),
            ollama_endpoint: copy_opt_text(&self.ollama_endpoint),
            timeout_seconds: self.timeout_seconds,
            default_model: self.default_model.duplicate(),
            coder_model: self.coder_model.duplicate(),
            embed_model: self.embed_model.duplicate(),
            max_tokens: self.max_tokens,
        }
    }
}

impl Default for AiConfig {
    fn default() -> (c: AiConfig)
        ensures
            c@ == AiConfig::default_view(),
    {
        AiConfig {
            provider: String::from_str("ollama"),
            model: String::from_str("Qwen2.5:7b"),
            endpoint: None,
            api_key: None,
            ollama_endpoint: Some(String::from_str("http://127.0.0.1:11434")),
            timeout_seconds: 60,
            default_model: ModelInfo::default(),
            coder_model: ModelInfo::default(),
            embed_model: ModelInfo { name: String::from_str("nomic-embed-text"), max_tokens: 2048 },
            max_tokens: 4096,
        }
    }
}

/// Settings of the Discord adapter.
#[derive(Debug, Clone, PartialEq, Eq)]
pub struct DiscordConfig {
    pub token: String,
    pub channel_id: u64,
}

/// Mathematical view of [`DiscordConfig`].
pub struct DiscordConfigView {
    pub token: Seq<char>,
    pub channel_id: u64,
}

impl View for DiscordConfig {
    type V = DiscordConfigView;

    open spec fn view(&self) -> DiscordConfigView {
        DiscordConfigView { token: self.token@, channel_id: self.channel_id }
    }
}

impl DiscordConfig {
    /// No token and no channel.
    pub open spec fn default_view() -> DiscordConfigView {
        DiscordConfigView { token: Seq::empty(), channel_id: 0 }
    }

    /// An independent copy with the same view.
    pub fn duplicate(&self) -> (out: DiscordConfig)
        ensures
            out@ == self@,
    {
        DiscordConfig { token: self.token.clone(), channel_id: self.channel_id }
    }
}

impl Default for DiscordConfig {
    fn default() -> (c: DiscordConfig)
        ensures
            c@ == DiscordConfig::default_view(),
    {
        DiscordConfig { token: String::new(), channel_id: 0 }
    }
}

/// Settings of the chat-bot adapter.
#[derive(Debug, Clone, PartialEq, Eq)]
pub struct TelegramConfig {
    pub bot_token: String,
    pub admin_id: i64,
}

/// Mathematical view of [`TelegramConfig`].
pub struct TelegramConfigView {
    pub bot_token: Seq<char>,
    pub admin_id: i64,
}

impl View for TelegramConfig {
    type V = TelegramConfigView;

    open spec fn view(&self) -> TelegramConfigView {
        TelegramConfigView { bot_token: self.bot_token@, admin_id: self.admin_id }
    }
}

impl TelegramConfig {
    /// No token and no administrator.
    pub open spec fn default_view() -> TelegramConfigView {
        TelegramConfigView { bot_token: Seq::empty(), admin_id: 0 }
    }

    /// An independent copy with the same view.
    pub fn duplicate(&self) -> (out: TelegramConfig)
        ensures
            out@ == self@,
    {
        TelegramConfig { bot_token: self.bot_token.clone(), admin_id: self.admin_id }
    }
}

impl Default for TelegramConfig {
    fn default() -> (c: TelegramConfig)
        ensures
            c@ == TelegramConfig::default_view(),
    {
        TelegramConfig { bot_token: String::new(), admin_id: 0 }
    }
}

/// Settings of the file watcher.
#[derive(Debug, Clone, PartialEq, Eq)]
pub struct FileConfig {
    pub watch_path: String,
}

/// Mathematical view of [`FileConfig`].
pub struct FileConfigView {
    pub watch_path: Seq<char>,
}

impl View for FileConfig {
    type V = FileConfigView;

    open spec fn view(&self) -> FileConfigView {
        FileConfigView { watch_path: self.watch_path@ }
    }
}

impl FileConfig {
    /// The current directory.
    pub open spec fn default_view() -> FileConfigView {
        FileConfigView { watch_path: "."@ }
    }

    /// An independent copy with the same view.
    pub fn duplicate(&self) -> (out: FileConfig)
        ensures
            out@ == self@,
    {
        FileConfig { watch_path: self.watch_path.clone() }
    }
}

impl Default for FileConfig {
    fn default() -> (c: FileConfig)
        ensures
            c@ == FileConfig::default_view(),
    {
        FileConfig { watch_path: String::from_str(".") }
    }
}

/// What the shell runner may execute.
#[derive(Debug, Clone, PartialEq, Eq)]
pub struct ShellConfig {
    pub allowed_commands: Vec<String>,
    pub timeout_seconds: u64,
    pub require_approval_for: Vec<String>,
}

/// Mathematical view of [`ShellConfig`].
pub struct ShellConfigView {
    pub allowed_commands: Seq<Seq<char>>,
    pub timeout_seconds: u64,
    pub require_approval_for: Seq<Seq<char>>,
}

impl View for ShellConfig {
    type V = ShellConfigView;

    open spec fn view(&self) -> ShellConfigView {
        ShellConfigView {
            allowed_commands: self.allowed_commands.deep_view(),
            timeout_seconds: self.timeout_seconds,
            require_approval_for: self.require_approval_for.deep_view(),
        }
    }
}

impl ShellConfig {
    /// Nothing is allowed, nothing needs approval, one minute per command.
    pub open spec fn default_view() -> ShellConfigView {
        ShellConfigView {
            allowed_commands: Seq::empty(),
            timeout_seconds: 60,
            require_approval_for: Seq::empty(),
        }
    }

    /// An independent copy with the same view.
    pub fn duplicate(&self) -> (out: ShellConfig)
        ensures
            out@ == self@,
    {
        ShellConfig {
            allowed_commands: self.allowed_commands.clone(),
            timeout_seconds: self.timeout_seconds,
            require_approval_for: self.require_approval_for.clone(),
        }
    }
}

impl Default for ShellConfig {
    fn default() -> (c: ShellConfig)
        ensures
            c@ == ShellConfig::default_view(),
    {
        let c = ShellConfig {
            allowed_commands: Vec::new(),
            timeout_seconds: 60,
            require_approval_for: Vec::new(),
        };
        assert(c.allowed_commands.deep_view() =~= Seq::empty());
        assert(c.require_approval_for.deep_view() =~= Seq::empty());
        c
    }
}

/// The whole configuration.
#[derive(Debug, Clone, PartialEq, Eq)]
pub struct AxonConfig {
    pub ai: AiConfig,
    pub discord: DiscordConfig,
    pub telegram: TelegramConfig,
    pub filesystem: FileConfig,
    pub shell: ShellConfig,
}

/// Mathematical view of [`AxonConfig`].
pub struct AxonConfigView {
    pub ai: AiConfigView,
    pub discord: DiscordConfigView,
    pub telegram: TelegramConfigView,
    pub filesystem: FileConfigView,
    pub shell: ShellConfigView,
}

impl View for AxonConfig {
    type V = AxonConfigView;

    open spec fn view(&self) -> AxonConfigView {
        AxonConfigView {
            ai: self.ai@,
            discord: self.discord@,
            telegram: self.telegram@,
            filesystem: self.filesystem@,
            shell: self.shell@,
        }
    }
}

impl AxonConfig {
    /// Every section at its default.
    pub open spec fn default_view() -> AxonConfigView {
        AxonConfigView {
            ai: AiConfig::default_view(),
            discord: DiscordConfig::default_view(),
            telegram: TelegramConfig::default_view(),
            filesystem: FileConfig::default_view(),
            shell: ShellConfig::default_view(),
        }
    }

    /// An independent copy with the same view.
    pub fn duplicate(&self) -> (out: AxonConfig)
        ensures
            out@ == self@,
    {
        AxonConfig {
            ai: self.ai.duplicate(),
            discord: self.discord.duplicate(),
            telegram: self.telegram.duplicate(),
            filesystem: self.filesystem.duplicate(),
            shell: self.shell.duplicate(),
        }
    }
}

impl Default for AxonConfig {
    fn default() -> (c: AxonConfig)
        ensures
            c@ == AxonConfig::default_view(),
    {
        AxonConfig {
            ai: AiConfig::default(),
            discord: DiscordConfig::default(),
            telegram: TelegramConfig::default(),
            filesystem: FileConfig::default(),
            shell: ShellConfig::default(),
        }
    }
}

} // verus!
