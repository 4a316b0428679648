//! The profile data model: one `Config` per stored connection context,
//! a handful of closed enumerations for the constrained options, and
//! the in-memory store `SharedData`.
//!
//! Each enumeration has two textual forms: the *storage word* written
//! into the profile store file, and the *render value* written into
//! the generated shell environment file.

use vstd::prelude::*;

use crate::text::str_eq;

verus! {

/// Output format option: stored and rendered as the same word.
#[derive(Clone, Copy, Debug, PartialEq, Eq, Structural)]
pub enum Format {
    Table,
    Json,
    Yaml,
}

/// Log level option.  Note the storage word of `Error` is `err`
/// while it renders as `error`.
#[derive(Clone, Copy, Debug, PartialEq, Eq, Structural)]
pub enum LogLevel {
    Trace,
    Debug,
    Info,
    Warn,
    Error,
}

/// Retry count option: stored as a word, rendered as a digit.
#[derive(Clone, Copy, Debug, PartialEq, Eq, Structural)]
pub enum MaxRetries {
    Zero,
    One,
    Two,
}

/// TLS-verification switch: stored as a word, rendered as the literal
/// boolean or digit form.
#[derive(Clone, Copy, Debug, PartialEq, Eq, Structural)]
pub enum SkipVerify {
    True,
    False,
    Zero,
    One,
}

/// Redirect-following switch, same textual forms as `SkipVerify`.
#[derive(Clone, Copy, Debug, PartialEq, Eq, Structural)]
pub enum DisableRedirects {
    True,
    False,
    Zero,
    One,
}

/// Colored-output switch, same textual forms as `SkipVerify`.
#[derive(Clone, Copy, Debug, PartialEq, Eq, Structural)]
pub enum CliNoColor {
    True,
    False,
    Zero,
    One,
}

pub open spec fn format_word(v: Format) -> Seq<char> {
    match v {
        Format::Table => "table"@,
        Format::Json => "json"@,
        Format::Yaml => "yaml"@,
    }
}

pub open spec fn format_render(v: Format) -> Seq<char> {
    format_word(v)
}

pub open spec fn format_of_word(w: Seq<char>) -> Option<Format> {
    if w == "table"@ {
        Some(Format::Table)
    } else if w == "json"@ {
        Some(Format::Json)
    } else if w == "yaml"@ {
        Some(Format::Yaml)
    } else {
        None
    }
}

pub open spec fn log_level_word(v: LogLevel) -> Seq<char> {
    match v {
        LogLevel::Trace => "trace"@,
        LogLevel::Debug => "debug"@,
        LogLevel::Info => "info"@,
        LogLevel::Warn => "warn"@,
        LogLevel::Error => "err"@,
    }
}

pub open spec fn log_level_render(v: LogLevel) -> Seq<char> {
    match v {
        LogLevel::Error => "error"@,
        _ => log_level_word(v),
    }
}

pub open spec fn log_level_of_word(w: Seq<char>) -> Option<LogLevel> {
    if w == "trace"@ {
        Some(LogLevel::Trace)
    } else if w == "debug"@ {
        Some(LogLevel::Debug)
    } else if w == "info"@ {
        Some(LogLevel::Info)
    } else if w == "warn"@ {
        Some(LogLevel::Warn)
    } else if w == "err"@ {
        Some(LogLevel::Error)
    } else {
        None
    }
}

pub open spec fn max_retries_word(v: MaxRetries) -> Seq<char> {
    match v {
        MaxRetries::Zero => "zero"@,
        MaxRetries::One => "one"@,
        MaxRetries::Two => "two"@,
    }
}

pub open spec fn max_retries_render(v: MaxRetries) -> Seq<char> {
    match v {
        MaxRetries::Zero => "0"@,
        MaxRetries::One => "1"@,
        MaxRetries::Two => "2"@,
    }
}

pub open spec fn max_retries_of_word(w: Seq<char>) -> Option<MaxRetries> {
    if w == "zero"@ {
        Some(MaxRetries::Zero)
    } else if w == "one"@ {
        Some(MaxRetries::One)
    } else if w == "two"@ {
        Some(MaxRetries::Two)
    } else {
        None
    }
}

pub open spec fn skip_verify_word(v: SkipVerify) -> Seq<char> {
    match v {
        SkipVerify::True => "true"@,
        SkipVerify::False => "false"@,
        SkipVerify::Zero => "zero"@,
        SkipVerify::One => "one"@,
    }
}

pub open spec fn skip_verify_render(v: SkipVerify) -> Seq<char> {
    match v {
        SkipVerify::True => "true"@,
        SkipVerify::False => "false"@,
        SkipVerify::Zero => "0"@,
        SkipVerify::One => "1"@,
    }
}

pub open spec fn skip_verify_of_word(w: Seq<char>) -> Option<SkipVerify> {
    if w == "true"@ {
        Some(SkipVerify::True)
    } else if w == "false"@ {
        Some(SkipVerify::False)
    } else if w == "zero"@ {
        Some(SkipVerify::Zero)
    } else if w == "one"@ {
        Some(SkipVerify::One)
    } else {
        None
    }
}

pub open spec fn disable_redirects_word(v: DisableRedirects) -> Seq<char> {
    match v {
        DisableRedirects::True => "true"@,
        DisableRedirects::False => "false"@,
        DisableRedirects::Zero => "zero"@,
        DisableRedirects::One => "one"@,
    }
}

pub open spec fn disable_redirects_render(v: DisableRedirects) -> Seq<char> {
    match v {
        DisableRedirects::True => "true"@,
        DisableRedirects::False => "false"@,
        DisableRedirects::Zero => "0"@,
        DisableRedirects::One => "1"@,
    }
}

pub open spec fn disable_redirects_of_word(w: Seq<char>) -> Option<DisableRedirects> {
    if w == "true"@ {
        Some(DisableRedirects::True)
    } else if w == "false"@ {
        Some(DisableRedirects::False)
    } else if w == "zero"@ {
        Some(DisableRedirects::Zero)
    } else if w == "one"@ {
        Some(DisableRedirects::One)
    } else {
        None
    }
}

pub open spec fn cli_no_color_word(v: CliNoColor) -> Seq<char> {
    match v {
        CliNoColor::True => "true"@,
        CliNoColor::False => "false"@,
        CliNoColor::Zero => "zero"@,
        CliNoColor::One => "one"@,
    }
}

pub open spec fn cli_no_color_render(v: CliNoColor) -> Seq<char> {
    match v {
        CliNoColor::True => "true"@,
        CliNoColor::False => "false"@,
        CliNoColor::Zero => "0"@,
        CliNoColor::One => "1"@,
    }
}

pub open spec fn cli_no_color_of_word(w: Seq<char>) -> Option<CliNoColor> {
    if w == "true"@ {
        Some(CliNoColor::True)
    } else if w == "false"@ {
        Some(CliNoColor::False)
    } else if w == "zero"@ {
        Some(CliNoColor::Zero)
    } else if w == "one"@ {
        Some(CliNoColor::One)
    } else {
        None
    }
}

impl Format {
    /// The word written into the profile store file.
    pub fn storage_word(&self) -> (r: &'static str)
        ensures
            r@ == format_word(*self),
    {
        match self {
            Format::Table => "table",
            Format::Json => "json",
            Format::Yaml => "yaml",
        }
    }

    /// The literal form written into the environment file.
    pub fn render_value(&self) -> (r: &'static str)
        ensures
            r@ == format_render(*self),
    {
        self.storage_word()
    }

    /// Reads a storage word back; `None` for anything outside the set.
    pub fn from_word(w: &str) -> (r: Option<Format>)
        ensures
            r == format_of_word(w@),
    {
        if str_eq(w, "table") {
            Some(Format::Table)
        } else if str_eq(w, "json") {
            Some(Format::Json)
        } else if str_eq(w, "yaml") {
            Some(Format::Yaml)
        } else {
            None
        }
    }
}

impl LogLevel {
    /// The word written into the profile store file.
    pub fn storage_word(&self) -> (r: &'static str)
        ensures
            r@ == log_level_word(*self),
    {
        match self {
            LogLevel::Trace => "trace",
            LogLevel::Debug => "debug",
            LogLevel::Info => "info",
            LogLevel::Warn => "warn",
            LogLevel::Error => "err",
        }
    }

    /// The literal form written into the environment file.
    pub fn render_value(&self) -> (r: &'static str)
        ensures
            r@ == log_level_render(*self),
    {
        match self {
            LogLevel::Trace => "trace",
            LogLevel::Debug => "debug",
            LogLevel::Info => "info",
            LogLevel::Warn => "warn",
            LogLevel::Error => "error",
        }
    }

    /// Reads a storage word back; `None` for anything outside the set.
    pub fn from_word(w: &str) -> (r: Option<LogLevel>)
        ensures
            r == log_level_of_word(w@),
    {
        if str_eq(w, "trace") {
            Some(LogLevel::Trace)
        } else if str_eq(w, "debug") {
            Some(LogLevel::Debug)
        } else if str_eq(w, "info") {
            Some(LogLevel::Info)
        } else if str_eq(w, "warn") {
            Some(LogLevel::Warn)
        } else if str_eq(w, "err") {
            Some(LogLevel::Error)
        } else {
            None
        }
    }
}

impl MaxRetries {
    /// The word written into the profile store file.
    pub fn storage_word(&self) -> (r: &'static str)
        ensures
            r@ == max_retries_word(*self),
    {
        match self {
            MaxRetries::Zero => "zero",
            MaxRetries::One => "one",
            MaxRetries::Two => "two",
        }
    }

    /// The literal form written into the environment file.
    pub fn render_value(&self) -> (r: &'static str)
        ensures
            r@ == max_retries_render(*self),
    {
        match self {
            MaxRetries::Zero => "0",
            MaxRetries::One => "1",
            MaxRetries::Two => "2",
        }
    }

    /// Reads a storage word back; `None` for anything outside the set.
    pub fn from_word(w: &str) -> (r: Option<MaxRetries>)
        ensures
            r == max_retries_of_word(w@),
    {
        if str_eq(w, "zero") {
            Some(MaxRetries::Zero)
        } else if str_eq(w, "one") {
            Some(MaxRetries::One)
        } else if str_eq(w, "two") {
            Some(MaxRetries::Two)
        } else {
            None
        }
    }
}

impl SkipVerify {
    /// The word written into the profile store file.
    pub fn storage_word(&self) -> (r: &'static str)
        ensures
            r@ == skip_verify_word(*self),
    {
        match self {
            SkipVerify::True => "true",
            SkipVerify::False => "false",
            SkipVerify::Zero => "zero",
            SkipVerify::One => "one",
        }
    }

    /// The literal form written into the environment file.
    pub fn render_value(&self) -> (r: &'static str)
        ensures
            r@ == skip_verify_render(*self),
    {
        match self {
            SkipVerify::True => "true",
            SkipVerify::False => "false",
            SkipVerify::Zero => "0",
            SkipVerify::One => "1",
        }
    }

    /// Reads a storage word back; `None` for anything outside the set.
    pub fn from_word(w: &str) -> (r: Option<SkipVerify>)
        ensures
            r == skip_verify_of_word(w@),
    {
        if str_eq(w, "true") {
            Some(SkipVerify::True)
        } else if str_eq(w, "false") {
            Some(SkipVerify::False)
        } else if str_eq(w, "zero") {
            Some(SkipVerify::Zero)
        } else if str_eq(w, "one") {
            Some(SkipVerify::One)
        } else {
            None
        }
    }
}

impl DisableRedirects {
    /// The word written into the profile store file.
    pub fn storage_word(&self) -> (r: &'static str)
        ensures
            r@ == disable_redirects_word(*self),
    {
        match self {
            DisableRedirects::True => "true",
            DisableRedirects::False => "false",
            DisableRedirects::Zero => "zero",
            DisableRedirects::One => "one",
        }
    }

    /// The literal form written into the environment file.
    pub fn render_value(&self) -> (r: &'static str)
        ensures
            r@ == disable_redirects_render(*self),
    {
        match self {
            DisableRedirects::True => "true",
            DisableRedirects::False => "false",
            DisableRedirects::Zero => "0",
            DisableRedirects::One => "1",
        }
    }

    /// Reads a storage word back; `None` for anything outside the set.
    pub fn from_word(w: &str) -> (r: Option<DisableRedirects>)
        ensures
            r == disable_redirects_of_word(w@),
    {
        if str_eq(w, "true") {
            Some(DisableRedirects::True)
        } else if str_eq(w, "false") {
            Some(DisableRedirects::False)
        } else if str_eq(w, "zero") {
            Some(DisableRedirects::Zero)
        } else if str_eq(w, "one") {
            Some(DisableRedirects::One)
        } else {
            None
        }
    }
}

impl CliNoColor {
    /// The word written into the profile store file.
    pub fn storage_word(&self) -> (r: &'static str)
        ensures
            r@ == cli_no_color_word(*self),
    {
        match self {
            CliNoColor::True => "true",
            CliNoColor::False => "false",
            CliNoColor::Zero => "zero",
            CliNoColor::One => "one",
        }
    }

    /// The literal form written into the environment file.
    pub fn render_value(&self) -> (r: &'static str)
        ensures
            r@ == cli_no_color_render(*self),
    {
        match self {
            CliNoColor::True => "true",
            CliNoColor::False => "false",
            CliNoColor::Zero => "0",
            CliNoColor::One => "1",
        }
    }

    /// Reads a storage word back; `None` for anything outside the set.
    pub fn from_word(w: &str) -> (r: Option<CliNoColor>)
        ensures
            r == cli_no_color_of_word(w@),
    {
        if str_eq(w, "true") {
            Some(CliNoColor::True)
        } else if str_eq(w, "false") {
            Some(CliNoColor::False)
        } else if str_eq(w, "zero") {
            Some(CliNoColor::Zero)
        } else if str_eq(w, "one") {
            Some(CliNoColor::One)
        } else {
            None
        }
    }
}

/// One stored connection profile.  `name` is the lookup key; `addr`
/// and `token` are always present; every other field is optional.
pub struct Config {
    pub name: String,
    pub addr: String,
    pub token: String,
    pub cacert: Option<String>,
    pub tls_server_name: Option<String>,
    pub capath: Option<String>,
    pub client_cert: Option<String>,
    pub client_key: Option<String>,
    pub client_timeout: Option<String>,
    pub cluster_addr: Option<String>,
    pub format: Option<Format>,
    pub license: Option<String>,
    pub license_path: Option<String>,
    pub log_level: Option<LogLevel>,
    pub max_retries: Option<MaxRetries>,
    pub redirect_addr: Option<String>,
    pub skip_verify: Option<SkipVerify>,
    pub cli_no_color: Option<CliNoColor>,
    pub rate_limit: Option<String>,
    pub namespace: Option<String>,
    pub srv_lookup: Option<String>,
    pub mfa: Option<String>,
    pub http_proxy: Option<String>,
    pub proxy_addr: Option<String>,
    pub disable_redirects: Option<DisableRedirects>,
}

/// The mathematical value of a `Config`: every string as a character
/// sequence, the enumerations as themselves.
#[verifier::ext_equal]
pub struct ConfigV {
    pub name: Seq<char>,
    pub addr: Seq<char>,
    pub token: Seq<char>,
    pub cacert: Option<Seq<char>>,
    pub tls_server_name: Option<Seq<char>>,
    pub capath: Option<Seq<char>>,
    pub client_cert: Option<Seq<char>>,
    pub client_key: Option<Seq<char>>,
    pub client_timeout: Option<Seq<char>>,
    pub cluster_addr: Option<Seq<char>>,
    pub format: Option<Format>,
    pub license: Option<Seq<char>>,
    pub license_path: Option<Seq<char>>,
    pub log_level: Option<LogLevel>,
    pub max_retries: Option<MaxRetries>,
    pub redirect_addr: Option<Seq<char>>,
    pub skip_verify: Option<SkipVerify>,
    pub cli_no_color: Option<CliNoColor>,
    pub rate_limit: Option<Seq<char>>,
    pub namespace: Option<Seq<char>>,
    pub srv_lookup: Option<Seq<char>>,
    pub mfa: Option<Seq<char>>,
    pub http_proxy: Option<Seq<char>>,
    pub proxy_addr: Option<Seq<char>>,
    pub disable_redirects: Option<DisableRedirects>,
}

impl View for Config {
    type V = ConfigV;

    open spec fn view(&self) -> ConfigV {
        ConfigV {
            name: self.name@,
            addr: self.addr@,
            token: self.token@,
            cacert: self.cacert.deep_view(),
            tls_server_name: self.tls_server_name.deep_view(),
            capath: self.capath.deep_view(),
            client_cert: self.client_cert.deep_view(),
            client_key: self.client_key.deep_view(),
            client_timeout: self.client_timeout.deep_view(),
            cluster_addr: self.cluster_addr.deep_view(),
            format: self.format,
            license: self.license.deep_view(),
            license_path: self.license_path.deep_view(),
            log_level: self.log_level,
            max_retries: self.max_retries,
            redirect_addr: self.redirect_addr.deep_view(),
            skip_verify: self.skip_verify,
            cli_no_color: self.cli_no_color,
            rate_limit: self.rate_limit.deep_view(),
            namespace: self.namespace.deep_view(),
            srv_lookup: self.srv_lookup.deep_view(),
            mfa: self.mfa.deep_view(),
            http_proxy: self.http_proxy.deep_view(),
            proxy_addr: self.proxy_addr.deep_view(),
            disable_redirects: self.disable_redirects,
        }
    }
}

impl DeepView for Config {
    type V = ConfigV;

    open spec fn deep_view(&self) -> ConfigV {
        self.view()
    }
}

fn clone_opt_string(o: &Option<String>) -> (r: Option<String>)
    ensures
        r == *o,
{
    match o {
        Some(s) => Some(s.clone()),
        None => None,
    }
}

fn eq_opt_string(a: &Option<String>, b: &Option<String>) -> (r: bool)
    ensures
        r == (a.deep_view() == b.deep_view()),
{
    match (a, b) {
        (Some(x), Some(y)) => *x == *y,
        (None, None) => true,
        _ => false,
    }
}

fn eq_opt_format(a: &Option<Format>, b: &Option<Format>) -> (r: bool)
    ensures
        r == (a == b),
{
    match (a, b) {
        (Some(x), Some(y)) => *x == *y,
        (None, None) => true,
        _ => false,
    }
}

fn eq_opt_log_level(a: &Option<LogLevel>, b: &Option<LogLevel>) -> (r: bool)
    ensures
        r == (a == b),
{
    match (a, b) {
        (Some(x), Some(y)) => *x == *y,
        (None, None) => true,
        _ => false,
    }
}

fn eq_opt_max_retries(a: &Option<MaxRetries>, b: &Option<MaxRetries>) -> (r: bool)
    ensures
        r == (a == b),
{
    match (a, b) {
        (Some(x), Some(y)) => *x == *y,
        (None, None) => true,
        _ => false,
    }
}

fn eq_opt_skip_verify(a: &Option<SkipVerify>, b: &Option<SkipVerify>) -> (r: bool)
    ensures
        r == (a == b),
{
    match (a, b) {
        (Some(x), Some(y)) => *x == *y,
        (None, None) => true,
        _ => false,
    }
}

fn eq_opt_disable_redirects(a: &Option<DisableRedirects>, b: &Option<DisableRedirects>) -> (r:
    bool)
    ensures
        r == (a == b),
{
    match (a, b) {
        (Some(x), Some(y)) => *x == *y,
        (None, None) => true,
        _ => false,
    }
}

fn eq_opt_cli_no_color(a: &Option<CliNoColor>, b: &Option<CliNoColor>) -> (r: bool)
    ensures
        r == (a == b),
{
    match (a, b) {
        (Some(x), Some(y)) => *x == *y,
        (None, None) => true,
        _ => false,
    }
}

impl Clone for Config {
    /// A clone carries exactly the same profile value.
    fn clone(&self) -> (r: Self)
        ensures
            r@ == self@,
    {
        Config {
            name: self.name.clone(),
            addr: self.addr.clone(),
            token: self.token.clone(),
            cacert: clone_opt_string(&self.cacert),
            tls_server_name: clone_opt_string(&self.tls_server_name),
            capath: clone_opt_string(&self.capath),
            client_cert: clone_opt_string(&self.client_cert),
            client_key: clone_opt_string(&self.client_key),
            client_timeout: clone_opt_string(&self.client_timeout),
            cluster_addr: clone_opt_string(&self.cluster_addr),
            format: self.format,
            license: clone_opt_string(&self.license),
            license_path: clone_opt_string(&self.license_path),
            log_level: self.log_level,
            max_retries: self.max_retries,
            redirect_addr: clone_opt_string(&self.redirect_addr),
            skip_verify: self.skip_verify,
            cli_no_color: self.cli_no_color,
            rate_limit: clone_opt_string(&self.rate_limit),
            namespace: clone_opt_string(&self.namespace),
            srv_lookup: clone_opt_string(&self.srv_lookup),
            mfa: clone_opt_string(&self.mfa),
            http_proxy: clone_opt_string(&self.http_proxy),
            proxy_addr: clone_opt_string(&self.proxy_addr),
            disable_redirects: self.disable_redirects,
        }
    }
}

impl PartialEq for Config {
    /// Two profiles are equal when every field holds the same value.
    fn eq(&self, other: &Config) -> (r: bool) {
        self.name == other.name && self.addr == other.addr && self.token == other.token
            && eq_opt_string(&self.cacert, &other.cacert) && eq_opt_string(
            &self.tls_server_name,
            &other.tls_server_name,
        ) && eq_opt_string(&self.capath, &other.capath) && eq_opt_string(
            &self.client_cert,
            &other.client_cert,
        ) && eq_opt_string(&self.client_key, &other.client_key) && eq_opt_string(
            &self.client_timeout,
            &other.client_timeout,
        ) && eq_opt_string(&self.cluster_addr, &other.cluster_addr) && eq_opt_format(&self.format, &other.format)
            && eq_opt_string(&self.license, &other.license) && eq_opt_string(
            &self.license_path,
            &other.license_path,
        ) && eq_opt_log_level(&self.log_level, &other.log_level) && eq_opt_max_retries(&self.max_retries, &other.max_retries)
            && eq_opt_string(&self.redirect_addr, &other.redirect_addr) && eq_opt_skip_verify(&self.skip_verify, &other.skip_verify) && eq_opt_cli_no_color(&self.cli_no_color, &other.cli_no_color) && eq_opt_string(
            &self.rate_limit,
            &other.rate_limit,
        ) && eq_opt_string(&self.namespace, &other.namespace) && eq_opt_string(
            &self.srv_lookup,
            &other.srv_lookup,
        ) && eq_opt_string(&self.mfa, &other.mfa) && eq_opt_string(
            &self.http_proxy,
            &other.http_proxy,
        ) && eq_opt_string(&self.proxy_addr, &other.proxy_addr) && eq_opt_disable_redirects(&self.disable_redirects, &other.disable_redirects)
    }
}

impl vstd::std_specs::cmp::PartialEqSpecImpl for Config {
    open spec fn obeys_eq_spec() -> bool {
        true
    }

    open spec fn eq_spec(&self, other: &Config) -> bool {
        self@ == other@
    }
}

/// The in-memory profile store: the ordered list of profiles read
/// from the store file.
pub struct SharedData {
    pub configs: Vec<Config>,
}

/// The two halves of a rename request: the old name and the new one.
pub struct RenameArgs(pub String, pub String);

} // verus!
