//! The plain data of the application: backends, configuration, analysis
//! results, screens, modes, slash-commands and settings fields.

use vstd::prelude::*;

verus! {

/// The analysis backend that requests are sent to.
#[derive(Debug, Clone, Copy, PartialEq, Eq, Structural)]
pub enum ProviderType {
    Azure,
    OpenAI,
    Anthropic,
}

impl ProviderType {
    /// The identifier under which the backend is stored in configuration.
    pub open spec fn spec_as_str(&self) -> Seq<char> {
        match self {
            ProviderType::Azure => "azure"@,
            ProviderType::OpenAI => "openai"@,
            ProviderType::Anthropic => "anthropic"@,
        }
    }

    pub fn as_str(&self) -> (r: &'static str)
        ensures
            r@ == self.spec_as_str(),
    {
        match self {
            ProviderType::Azure => "azure",
            ProviderType::OpenAI => "openai",
            ProviderType::Anthropic => "anthropic",
        }
    }

    /// The name shown to the user.
    pub open spec fn spec_display_name(&self) -> Seq<char> {
        match self {
            ProviderType::Azure => "Azure OpenAI"@,
            ProviderType::OpenAI => "OpenAI"@,
            ProviderType::Anthropic => "Anthropic"@,
        }
    }

    pub fn display_name(&self) -> (r: &'static str)
        ensures
            r@ == self.spec_display_name(),
    {
        match self {
            ProviderType::Azure => "Azure OpenAI",
            ProviderType::OpenAI => "OpenAI",
            ProviderType::Anthropic => "Anthropic",
        }
    }

    /// Every backend, in cycling order.
    pub open spec fn spec_all() -> Seq<ProviderType> {
        seq![ProviderType::Azure, ProviderType::OpenAI, ProviderType::Anthropic]
    }

    pub fn all() -> (r: &'static [ProviderType])
        ensures
            r@ == Self::spec_all(),
    {
        &[ProviderType::Azure, ProviderType::OpenAI, ProviderType::Anthropic]
    }

    /// The backend after `self` in the cycle Azure, OpenAI, Anthropic, Azure.
    pub open spec fn spec_next(&self) -> ProviderType {
        match self {
            ProviderType::Azure => ProviderType::OpenAI,
            ProviderType::OpenAI => ProviderType::Anthropic,
            ProviderType::Anthropic => ProviderType::Azure,
        }
    }

    #[verifier::when_used_as_spec(spec_next)]
    pub fn next(&self) -> (r: ProviderType)
        ensures
            r == self.spec_next(),
    {
        match self {
            ProviderType::Azure => ProviderType::OpenAI,
            ProviderType::OpenAI => ProviderType::Anthropic,
            ProviderType::Anthropic => ProviderType::Azure,
        }
    }

    /// The backend before `self` in the same cycle.
    pub open spec fn spec_prev(&self) -> ProviderType {
        match self {
            ProviderType::Azure => ProviderType::Anthropic,
            ProviderType::OpenAI => ProviderType::Azure,
            ProviderType::Anthropic => ProviderType::OpenAI,
        }
    }

    #[verifier::when_used_as_spec(spec_prev)]
    pub fn prev(&self) -> (r: ProviderType)
        ensures
            r == self.spec_prev(),
    {
        match self {
            ProviderType::Azure => ProviderType::Anthropic,
            ProviderType::OpenAI => ProviderType::Azure,
            ProviderType::Anthropic => ProviderType::OpenAI,
        }
    }

    /// Cycling forward visits every backend and returns after three steps,
    /// and cycling backward undoes cycling forward.
    pub proof fn lemma_cycle(self)
        ensures
            self.next() != self,
            self.next().next() != self,
            self.next().next().next() == self,
            self.next().prev() == self,
            self.prev().next() == self,
    {
    }
}

impl Default for ProviderType {
    fn default() -> (r: Self)
        ensures
            r == ProviderType::Azure,
    {
        ProviderType::Azure
    }
}

/// The API version written into a configuration file that names none.
pub fn default_azure_api_version() -> (r: String)
    ensures
        r@ == "2024-02-15-preview"@,
{
    "2024-02-15-preview".to_owned()
}

/// The OpenAI model written into a configuration file that names none.
pub fn default_openai_model() -> (r: String)
    ensures
        r@ == "gpt-4"@,
{
    "gpt-4".to_owned()
}

/// Azure OpenAI settings.
#[derive(Debug)]
pub struct AzureConfig {
    pub url: String,
    pub api_key: String,
    pub deployment: String,
    pub api_version: String,
}

pub struct AzureConfigView {
    pub url: Seq<char>,
    pub api_key: Seq<char>,
    pub deployment: Seq<char>,
    pub api_version: Seq<char>,
}

impl View for AzureConfig {
    type V = AzureConfigView;

    open spec fn view(&self) -> AzureConfigView {
        AzureConfigView {
            url: self.url@,
            api_key: self.api_key@,
            deployment: self.deployment@,
            api_version: self.api_version@,
        }
    }
}

impl AzureConfigView {
    pub open spec fn empty() -> AzureConfigView {
        AzureConfigView { url: seq![], api_key: seq![], deployment: seq![], api_version: seq![] }
    }
}

impl Clone for AzureConfig {
    fn clone(&self) -> (r: Self)
        ensures
            r == *self,
    {
        AzureConfig {
            url: self.url.clone(),
            api_key: self.api_key.clone(),
            deployment: self.deployment.clone(),
            api_version: self.api_version.clone(),
        }
    }
}

impl Default for AzureConfig {
    fn default() -> (r: Self)
        ensures
            r@ == AzureConfigView::empty(),
    {
        AzureConfig {
            url: String::new(),
            api_key: String::new(),
            deployment: String::new(),
            api_version: String::new(),
        }
    }
}

/// OpenAI settings.
#[derive(Debug)]
pub struct OpenAIConfig {
    pub api_key: String,
    pub model: String,
}

pub struct OpenAIConfigView {
    pub api_key: Seq<char>,
    pub model: Seq<char>,
}

impl View for OpenAIConfig {
    type V = OpenAIConfigView;

    open spec fn view(&self) -> OpenAIConfigView {
        OpenAIConfigView { api_key: self.api_key@, model: self.model@ }
    }
}

impl OpenAIConfigView {
    pub open spec fn empty() -> OpenAIConfigView {
        OpenAIConfigView { api_key: seq![], model: seq![] }
    }
}

impl Clone for OpenAIConfig {
    fn clone(&self) -> (r: Self)
        ensures
            r == *self,
    {
        OpenAIConfig { api_key: self.api_key.clone(), model: self.model.clone() }
    }
}

impl Default for OpenAIConfig {
    fn default() -> (r: Self)
        ensures
            r@ == OpenAIConfigView::empty(),
    {
        OpenAIConfig { api_key: String::new(), model: String::new() }
    }
}

/// Anthropic settings.
#[derive(Debug)]
pub struct AnthropicConfig {
    pub api_key: String,
    pub model: String,
}

pub struct AnthropicConfigView {
    pub api_key: Seq<char>,
    pub model: Seq<char>,
}

impl View for AnthropicConfig {
    type V = AnthropicConfigView;

    open spec fn view(&self) -> AnthropicConfigView {
        AnthropicConfigView { api_key: self.api_key@, model: self.model@ }
    }
}

impl AnthropicConfigView {
    pub open spec fn empty() -> AnthropicConfigView {
        AnthropicConfigView { api_key: seq![], model: seq![] }
    }
}

impl Clone for AnthropicConfig {
    fn clone(&self) -> (r: Self)
        ensures
            r == *self,
    {
        AnthropicConfig { api_key: self.api_key.clone(), model: self.model.clone() }
    }
}

impl Default for AnthropicConfig {
    fn default() -> (r: Self)
        ensures
            r@ == AnthropicConfigView::empty(),
    {
        AnthropicConfig { api_key: String::new(), model: String::new() }
    }
}

/// Which backend is in use.
#[derive(Debug, Clone, Copy, PartialEq, Eq, Structural)]
pub struct ProviderSelection {
    pub active: ProviderType,
}

impl Default for ProviderSelection {
    fn default() -> (r: Self)
        ensures
            r.active == ProviderType::Azure,
    {
        ProviderSelection { active: ProviderType::Azure }
    }
}

/// The whole configuration: the active backend and the settings of each.
#[derive(Debug)]
pub struct Config {
    pub provider: ProviderSelection,
    pub azure: AzureConfig,
    pub openai: OpenAIConfig,
    pub anthropic: AnthropicConfig,
}

pub struct ConfigView {
    pub active: ProviderType,
    pub azure: AzureConfigView,
    pub openai: OpenAIConfigView,
    pub anthropic: AnthropicConfigView,
}

impl View for Config {
    type V = ConfigView;

    open spec fn view(&self) -> ConfigView {
        ConfigView {
            active: self.provider.active,
            azure: self.azure@,
            openai: self.openai@,
            anthropic: self.anthropic@,
        }
    }
}

impl ConfigView {
    /// The configuration of a fresh installation: Azure is active and every
    /// text field is empty.
    pub open spec fn initial() -> ConfigView {
        ConfigView {
            active: ProviderType::Azure,
            azure: AzureConfigView::empty(),
            openai: OpenAIConfigView::empty(),
            anthropic: AnthropicConfigView::empty(),
        }
    }

    /// The same configuration with another active backend.
    pub open spec fn with_active(self, active: ProviderType) -> ConfigView {
        ConfigView { active, ..self }
    }
}

impl Clone for Config {
    fn clone(&self) -> (r: Self)
        ensures
            r == *self,
    {
        Config {
            provider: self.provider,
            azure: self.azure.clone(),
            openai: self.openai.clone(),
            anthropic: self.anthropic.clone(),
        }
    }
}

impl Default for Config {
    fn default() -> (r: Self)
        ensures
            r@ == ConfigView::initial(),
    {
        Config {
            provider: ProviderSelection { active: ProviderType::Azure },
            azure: AzureConfig::default(),
            openai: OpenAIConfig::default(),
            anthropic: AnthropicConfig::default(),
        }
    }
}

/// What a backend says of a prompt.
#[derive(Debug)]
pub struct AnalysisResult {
    /// Quality score from 0 to 100.
    pub score: u8,
    /// Suggestions, in the order the backend gave them.
    pub improvements: Vec<String>,
    /// Parts of the prompt that the backend found unclear, in its order.
    pub unclear_parts: Vec<String>,
}

pub struct AnalysisResultView {
    pub score: u8,
    pub improvements: Seq<Seq<char>>,
    pub unclear_parts: Seq<Seq<char>>,
}

impl View for AnalysisResult {
    type V = AnalysisResultView;

    open spec fn view(&self) -> AnalysisResultView {
        AnalysisResultView {
            score: self.score,
            improvements: self.improvements.deep_view(),
            unclear_parts: self.unclear_parts.deep_view(),
        }
    }
}

impl Clone for AnalysisResult {
    fn clone(&self) -> (r: Self)
        ensures
            r@ == self@,
    {
        let improvements = self.improvements.clone();
        let unclear_parts = self.unclear_parts.clone();
        assert(improvements.deep_view() =~= self.improvements.deep_view());
        assert(unclear_parts.deep_view() =~= self.unclear_parts.deep_view());
        AnalysisResult { score: self.score, improvements, unclear_parts }
    }
}

impl Default for AnalysisResult {
    fn default() -> (r: Self)
        ensures
            r@.score == 0,
            r@.improvements == Seq::<Seq<char>>::empty(),
            r@.unclear_parts == Seq::<Seq<char>>::empty(),
    {
        let r = AnalysisResult { score: 0, improvements: Vec::new(), unclear_parts: Vec::new() };
        assert(r.improvements.deep_view() =~= Seq::<Seq<char>>::empty());
        assert(r.unclear_parts.deep_view() =~= Seq::<Seq<char>>::empty());
        r
    }
}

/// The screen that receives input. Exactly one is active.
#[derive(Debug, Clone, Copy, PartialEq, Eq, Structural)]
pub enum Screen {
    Main,
    Settings,
}

impl Default for Screen {
    fn default() -> (r: Self)
        ensures
            r == Screen::Main,
    {
        Screen::Main
    }
}

/// The mode of the main screen. Exactly one holds at a time.
#[derive(Debug, Clone, Copy, PartialEq, Eq, Structural)]
pub enum AppState {
    Idle,
    Analyzing,
    ShowingResults,
    CommandMenu,
}

impl Default for AppState {
    fn default() -> (r: Self)
        ensures
            r == AppState::Idle,
    {
        AppState::Idle
    }
}

/// A slash-command.
#[derive(Debug, Clone, Copy, PartialEq, Eq, Structural)]
pub enum Command {
    Settings,
    Clear,
    Exit,
    Provider,
    Default,
}

impl Command {
    /// The registry: every command, in the order the menu lists them.
    pub open spec fn spec_all() -> Seq<Command> {
        seq![Command::Settings, Command::Provider, Command::Clear, Command::Default, Command::Exit]
    }

    pub fn all() -> (r: &'static [Command])
        ensures
            r@ == Self::spec_all(),
    {
        &[Command::Settings, Command::Provider, Command::Clear, Command::Default, Command::Exit]
    }

    /// What the user types to run the command.
    pub open spec fn spec_name(&self) -> Seq<char> {
        match self {
            Command::Settings => "/settings"@,
            Command::Clear => "/clear"@,
            Command::Exit => "/exit"@,
            Command::Provider => "/provider"@,
            Command::Default => "/default"@,
        }
    }

    pub fn name(&self) -> (r: &'static str)
        ensures
            r@ == self.spec_name(),
    {
        match self {
            Command::Settings => "/settings",
            Command::Clear => "/clear",
            Command::Exit => "/exit",
            Command::Provider => "/provider",
            Command::Default => "/default",
        }
    }

    /// One line on what the command does.
    pub open spec fn spec_description(&self) -> Seq<char> {
        match self {
            Command::Settings => "Configure API settings"@,
            Command::Clear => "Clear current prompt"@,
            Command::Exit => "Exit the application"@,
            Command::Provider => "Switch active provider"@,
            Command::Default => "Reset to default settings"@,
        }
    }

    pub fn description(&self) -> (r: &'static str)
        ensures
            r@ == self.spec_description(),
    {
        match self {
            Command::Settings => "Configure API settings",
            Command::Clear => "Clear current prompt",
            Command::Exit => "Exit the application",
            Command::Provider => "Switch active provider",
            Command::Default => "Reset to default settings",
        }
    }

    /// Every command is in the registry once, and its name starts with `/`.
    pub proof fn lemma_registry(self)
        ensures
            Self::spec_all().contains(self),
            Self::spec_all().no_duplicates(),
            self.spec_name().len() > 1,
            self.spec_name()[0] == '/',
    {
        reveal_strlit("/settings");
        reveal_strlit("/clear");
        reveal_strlit("/exit");
        reveal_strlit("/provider");
        reveal_strlit("/default");
        let all = Self::spec_all();
        assert(all[0] == Command::Settings);
        assert(all[1] == Command::Provider);
        assert(all[2] == Command::Clear);
        assert(all[3] == Command::Default);
        assert(all[4] == Command::Exit);
    }
}

/// A row of the settings screen.
#[derive(Debug, Clone, Copy, PartialEq, Eq, Structural)]
pub enum SettingsField {
    Provider,
    AzureUrl,
    AzureApiKey,
    AzureDeployment,
    AzureApiVersion,
    OpenAIApiKey,
    OpenAIModel,
    AnthropicApiKey,
    AnthropicModel,
    Save,
    Cancel,
}

impl SettingsField {
    /// The text fields that belong to one backend, in display order.
    pub open spec fn provider_fields(provider: ProviderType) -> Seq<SettingsField> {
        match provider {
            ProviderType::Azure => seq![
                SettingsField::AzureUrl,
                SettingsField::AzureApiKey,
                SettingsField::AzureDeployment,
                SettingsField::AzureApiVersion,
            ],
            ProviderType::OpenAI => seq![SettingsField::OpenAIApiKey, SettingsField::OpenAIModel],
            ProviderType::Anthropic => seq![
                SettingsField::AnthropicApiKey,
                SettingsField::AnthropicModel,
            ],
        }
    }

    /// The rows shown while `provider` is active: the backend selector, then
    /// that backend's own fields, then Save and Cancel.
    pub open spec fn spec_fields_for_provider(provider: ProviderType) -> Seq<SettingsField> {
        seq![SettingsField::Provider] + Self::provider_fields(provider) + seq![
            SettingsField::Save,
            SettingsField::Cancel,
        ]
    }

    pub fn fields_for_provider(provider: ProviderType) -> (fields: Vec<SettingsField>)
        ensures
            fields@ == Self::spec_fields_for_provider(provider),
    {
        let mut fields: Vec<SettingsField> = Vec::new();
        fields.push(SettingsField::Provider);
        match provider {
            ProviderType::Azure => {
                fields.push(SettingsField::AzureUrl);
                fields.push(SettingsField::AzureApiKey);
                fields.push(SettingsField::AzureDeployment);
                fields.push(SettingsField::AzureApiVersion);
            },
            ProviderType::OpenAI => {
                fields.push(SettingsField::OpenAIApiKey);
                fields.push(SettingsField::OpenAIModel);
            },
            ProviderType::Anthropic => {
                fields.push(SettingsField::AnthropicApiKey);
                fields.push(SettingsField::AnthropicModel);
            },
        }
        fields.push(SettingsField::Save);
        fields.push(SettingsField::Cancel);
        assert(fields@ =~= Self::spec_fields_for_provider(provider));
        fields
    }

    /// The number of rows shown while `provider` is active.
    pub open spec fn field_count(provider: ProviderType) -> nat {
        match provider {
            ProviderType::Azure => 7,
            ProviderType::OpenAI => 5,
            ProviderType::Anthropic => 5,
        }
    }

    /// The backend whose settings a text field belongs to.
    pub open spec fn owner(&self) -> Option<ProviderType> {
        match self {
            SettingsField::AzureUrl
            | SettingsField::AzureApiKey
            | SettingsField::AzureDeployment
            | SettingsField::AzureApiVersion => Some(ProviderType::Azure),
            SettingsField::OpenAIApiKey | SettingsField::OpenAIModel => Some(ProviderType::OpenAI),
            SettingsField::AnthropicApiKey | SettingsField::AnthropicModel => Some(
                ProviderType::Anthropic,
            ),
            _ => None,
        }
    }

    /// The shape of a backend's rows: the selector comes first, Save and
    /// Cancel come last, and between them stand exactly the text fields that
    /// belong to that backend.
    pub proof fn lemma_fields_shape(provider: ProviderType)
        ensures
            Self::spec_fields_for_provider(provider).len() == Self::field_count(provider),
            Self::field_count(provider) >= 3,
            Self::spec_fields_for_provider(provider)[0] == SettingsField::Provider,
            Self::spec_fields_for_provider(provider)[Self::field_count(provider) - 2]
                == SettingsField::Save,
            Self::spec_fields_for_provider(provider)[Self::field_count(provider) - 1]
                == SettingsField::Cancel,
            forall|i: int|
                1 <= i < Self::field_count(provider) - 2 ==> (
                #[trigger] Self::spec_fields_for_provider(provider)[i]).owner() == Some(provider),
            forall|f: SettingsField|
                f.owner() == Some(provider) ==> Self::spec_fields_for_provider(provider).contains(f),
            Self::spec_fields_for_provider(provider).no_duplicates(),
    {
        let fields = Self::spec_fields_for_provider(provider);
        match provider {
            ProviderType::Azure => {
                assert(fields =~= seq![
                    SettingsField::Provider,
                    SettingsField::AzureUrl,
                    SettingsField::AzureApiKey,
                    SettingsField::AzureDeployment,
                    SettingsField::AzureApiVersion,
                    SettingsField::Save,
                    SettingsField::Cancel,
                ]);
                assert(fields[1] == SettingsField::AzureUrl);
                assert(fields[2] == SettingsField::AzureApiKey);
                assert(fields[3] == SettingsField::AzureDeployment);
                assert(fields[4] == SettingsField::AzureApiVersion);
            },
            ProviderType::OpenAI => {
                assert(fields =~= seq![
                    SettingsField::Provider,
                    SettingsField::OpenAIApiKey,
                    SettingsField::OpenAIModel,
                    SettingsField::Save,
                    SettingsField::Cancel,
                ]);
                assert(fields[1] == SettingsField::OpenAIApiKey);
                assert(fields[2] == SettingsField::OpenAIModel);
            },
            ProviderType::Anthropic => {
                assert(fields =~= seq![
                    SettingsField::Provider,
                    SettingsField::AnthropicApiKey,
                    SettingsField::AnthropicModel,
                    SettingsField::Save,
                    SettingsField::Cancel,
                ]);
                assert(fields[1] == SettingsField::AnthropicApiKey);
                assert(fields[2] == SettingsField::AnthropicModel);
            },
        }
    }

    /// The caption of the row.
    pub open spec fn spec_label(&self) -> Seq<char> {
        match self {
            SettingsField::Provider => "Provider"@,
            SettingsField::AzureUrl => "Azure URL"@,
            SettingsField::AzureApiKey => "API Key"@,
            SettingsField::AzureDeployment => "Deployment"@,
            SettingsField::AzureApiVersion => "API Version"@,
            SettingsField::OpenAIApiKey => "API Key"@,
            SettingsField::OpenAIModel => "Model"@,
            SettingsField::AnthropicApiKey => "API Key"@,
            SettingsField::AnthropicModel => "Model"@,
            SettingsField::Save => "Save"@,
            SettingsField::Cancel => "Cancel"@,
        }
    }

    pub fn label(&self) -> (r: &'static str)
        ensures
            r@ == self.spec_label(),
    {
        match self {
            SettingsField::Provider => "Provider",
            SettingsField::AzureUrl => "Azure URL",
            SettingsField::AzureApiKey => "API Key",
            SettingsField::AzureDeployment => "Deployment",
            SettingsField::AzureApiVersion => "API Version",
            SettingsField::OpenAIApiKey => "API Key",
            SettingsField::OpenAIModel => "Model",
            SettingsField::AnthropicApiKey => "API Key",
            SettingsField::AnthropicModel => "Model",
            SettingsField::Save => "Save",
            SettingsField::Cancel => "Cancel",
        }
    }

    pub open spec fn spec_is_button(&self) -> bool {
        *self == SettingsField::Save || *self == SettingsField::Cancel
    }

    /// Whether the row is Save or Cancel.
    #[verifier::when_used_as_spec(spec_is_button)]
    pub fn is_button(&self) -> (r: bool)
        ensures
            r == self.spec_is_button(),
    {
        match self {
            SettingsField::Save | SettingsField::Cancel => true,
            _ => false,
        }
    }

    pub open spec fn spec_is_provider_selector(&self) -> bool {
        *self == SettingsField::Provider
    }

    /// Whether the row selects the backend.
    #[verifier::when_used_as_spec(spec_is_provider_selector)]
    pub fn is_provider_selector(&self) -> (r: bool)
        ensures
            r == self.spec_is_provider_selector(),
    {
        match self {
            SettingsField::Provider => true,
            _ => false,
        }
    }

    pub open spec fn spec_is_password(&self) -> bool {
        *self == SettingsField::AzureApiKey || *self == SettingsField::OpenAIApiKey || *self
            == SettingsField::AnthropicApiKey
    }

    /// Whether the row holds a credential, which is shown masked.
    #[verifier::when_used_as_spec(spec_is_password)]
    pub fn is_password(&self) -> (r: bool)
        ensures
            r == self.spec_is_password(),
    {
        match self {
            SettingsField::AzureApiKey
            | SettingsField::OpenAIApiKey
            | SettingsField::AnthropicApiKey => true,
            _ => false,
        }
    }

    pub open spec fn spec_is_text(&self) -> bool {
        !self.spec_is_button() && !self.spec_is_provider_selector()
    }

    /// Whether the row holds text that can be edited.
    #[verifier::when_used_as_spec(spec_is_text)]
    pub fn is_text(&self) -> (r: bool)
        ensures
            r == self.spec_is_text(),
            r == (self.owner() is Some),
    {
        !self.is_button() && !self.is_provider_selector()
    }
}

impl ConfigView {
    /// The text that a settings row shows for editing. Rows that hold no
    /// text give the empty text.
    pub open spec fn field_value(self, field: SettingsField) -> Seq<char> {
        match field {
            SettingsField::AzureUrl => self.azure.url,
            SettingsField::AzureApiKey => self.azure.api_key,
            SettingsField::AzureDeployment => self.azure.deployment,
            SettingsField::AzureApiVersion => self.azure.api_version,
            SettingsField::OpenAIApiKey => self.openai.api_key,
            SettingsField::OpenAIModel => self.openai.model,
            SettingsField::AnthropicApiKey => self.anthropic.api_key,
            SettingsField::AnthropicModel => self.anthropic.model,
            _ => Seq::empty(),
        }
    }

    /// The configuration with `value` in the place of one text row. Rows
    /// that hold no text leave it as it is.
    pub open spec fn with_field_value(self, field: SettingsField, value: Seq<char>) -> ConfigView {
        match field {
            SettingsField::AzureUrl => ConfigView {
                azure: AzureConfigView { url: value, ..self.azure },
                ..self
            },
            SettingsField::AzureApiKey => ConfigView {
                azure: AzureConfigView { api_key: value, ..self.azure },
                ..self
            },
            SettingsField::AzureDeployment => ConfigView {
                azure: AzureConfigView { deployment: value, ..self.azure },
                ..self
            },
            SettingsField::AzureApiVersion => ConfigView {
                azure: AzureConfigView { api_version: value, ..self.azure },
                ..self
            },
            SettingsField::OpenAIApiKey => ConfigView {
                openai: OpenAIConfigView { api_key: value, ..self.openai },
                ..self
            },
            SettingsField::OpenAIModel => ConfigView {
                openai: OpenAIConfigView { model: value, ..self.openai },
                ..self
            },
            SettingsField::AnthropicApiKey => ConfigView {
                anthropic: AnthropicConfigView { api_key: value, ..self.anthropic },
                ..self
            },
            SettingsField::AnthropicModel => ConfigView {
                anthropic: AnthropicConfigView { model: value, ..self.anthropic },
                ..self
            },
            _ => self,
        }
    }

    /// A text row reads back what was written into it, and writing into one
    /// row changes neither another row nor the active backend.
    pub proof fn lemma_field_round_trip(
        self,
        field: SettingsField,
        other: SettingsField,
        value: Seq<char>,
    )
        ensures
            field.is_text() ==> self.with_field_value(field, value).field_value(field) == value,
            other != field ==> self.with_field_value(field, value).field_value(other)
                == self.field_value(other),
            self.with_field_value(field, value).active == self.active,
            !field.is_text() ==> self.with_field_value(field, value) == self,
    {
    }
}

impl Config {
    /// The text that a settings row shows for editing. Rows that hold no
    /// text give the empty text.
    pub fn field_value(&self, field: &SettingsField) -> (value: String)
        ensures
            value@ == self@.field_value(*field),
    {
        match field {
            SettingsField::AzureUrl => self.azure.url.clone(),
            SettingsField::AzureApiKey => self.azure.api_key.clone(),
            SettingsField::AzureDeployment => self.azure.deployment.clone(),
            SettingsField::AzureApiVersion => self.azure.api_version.clone(),
            SettingsField::OpenAIApiKey => self.openai.api_key.clone(),
            SettingsField::OpenAIModel => self.openai.model.clone(),
            SettingsField::AnthropicApiKey => self.anthropic.api_key.clone(),
            SettingsField::AnthropicModel => self.anthropic.model.clone(),
            _ => String::new(),
        }
    }

    /// Puts `value` in the place of one text row. Rows that hold no text
    /// leave the configuration as it is.
    pub fn set_field_value(&mut self, field: &SettingsField, value: String)
        ensures
            final(self)@ == old(self)@.with_field_value(*field, value@),
    {
        match field {
            SettingsField::AzureUrl => self.azure.url = value,
            SettingsField::AzureApiKey => self.azure.api_key = value,
            SettingsField::AzureDeployment => self.azure.deployment = value,
            SettingsField::AzureApiVersion => self.azure.api_version = value,
            SettingsField::OpenAIApiKey => self.openai.api_key = value,
            SettingsField::OpenAIModel => self.openai.model = value,
            SettingsField::AnthropicApiKey => self.anthropic.api_key = value,
            SettingsField::AnthropicModel => self.anthropic.model = value,
            _ => {},
        }
    }
}

} // verus!
