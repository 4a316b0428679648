//! Rendering a profile as the shell environment block: one
//! `export KEY='value'` line per present field, in a fixed order.
//! Values are spliced in verbatim; a value holding a single quote
//! breaks the generated shell syntax, which is a documented limitation
//! of the file format, not something the renderer papers over.

use vstd::prelude::*;

use crate::model::{
    cli_no_color_render, disable_redirects_render, format_render, log_level_render,
    max_retries_render, skip_verify_render, CliNoColor, Config, ConfigV, DisableRedirects, Format,
    LogLevel, MaxRetries, SkipVerify,
};

verus! {

/// One `export KEY='value'` line, newline included.
pub open spec fn export_line(key: Seq<char>, value: Seq<char>) -> Seq<char> {
    "export "@ + key + "='"@ + value + "'\n"@
}

/// A line for a present optional field, nothing for an absent one.
pub open spec fn opt_line(key: Seq<char>, value: Option<Seq<char>>) -> Seq<char> {
    match value {
        Some(v) => export_line(key, v),
        None => Seq::empty(),
    }
}

pub open spec fn opt_format_render(v: Option<Format>) -> Option<Seq<char>> {
    match v {
        Some(x) => Some(format_render(x)),
        None => None,
    }
}

pub open spec fn opt_log_level_render(v: Option<LogLevel>) -> Option<Seq<char>> {
    match v {
        Some(x) => Some(log_level_render(x)),
        None => None,
    }
}

pub open spec fn opt_max_retries_render(v: Option<MaxRetries>) -> Option<Seq<char>> {
    match v {
        Some(x) => Some(max_retries_render(x)),
        None => None,
    }
}

pub open spec fn opt_skip_verify_render(v: Option<SkipVerify>) -> Option<Seq<char>> {
    match v {
        Some(x) => Some(skip_verify_render(x)),
        None => None,
    }
}

pub open spec fn opt_cli_no_color_render(v: Option<CliNoColor>) -> Option<Seq<char>> {
    match v {
        Some(x) => Some(cli_no_color_render(x)),
        None => None,
    }
}

pub open spec fn opt_disable_redirects_render(v: Option<DisableRedirects>) -> Option<Seq<char>> {
    match v {
        Some(x) => Some(disable_redirects_render(x)),
        None => None,
    }
}

/// The complete environment block of a profile.  The concatenation
/// order here is the rendering order: context name, address, token,
/// then every optional field in this fixed sequence.
pub open spec fn render_spec(c: ConfigV) -> Seq<char> {
    export_line("VAULT_CONTEXT"@, c.name) + export_line("VAULT_ADDR"@, c.addr) + export_line(
        "VAULT_TOKEN"@,
        c.token,
    ) + opt_line("VAULT_CACERT"@, c.cacert) + opt_line(
        "VAULT_TLS_SERVER_NAME"@,
        c.tls_server_name,
    ) + opt_line("VAULT_CAPATH"@, c.capath) + opt_line("VAULT_CLIENT_CERT"@, c.client_cert)
        + opt_line("VAULT_CLIENT_KEY"@, c.client_key) + opt_line(
        "VAULT_CLIENT_TIMEOUT"@,
        c.client_timeout,
    ) + opt_line("VAULT_CLUSTER_ADDR"@, c.cluster_addr) + opt_line(
        "VAULT_FORMAT"@,
        opt_format_render(c.format),
    ) + opt_line("VAULT_LICENCE"@, c.license) + opt_line("VAULT_LICENCE_PATH"@, c.license_path)
        + opt_line("VAULT_LOG_LEVEL"@, opt_log_level_render(c.log_level)) + opt_line(
        "VAULT_MAX_RETRIES"@,
        opt_max_retries_render(c.max_retries),
    ) + opt_line("VAULT_REDIRECT_ADDR"@, c.redirect_addr) + opt_line(
        "VAULT_SKIP_VERIFY"@,
        opt_skip_verify_render(c.skip_verify),
    ) + opt_line("VAULT_CLI_NO_COLOR"@, opt_cli_no_color_render(c.cli_no_color)) + opt_line(
        "VAULT_RATE_LIMIT"@,
        c.rate_limit,
    ) + opt_line("VAULT_NAMESPACE"@, c.namespace) + opt_line("VAULT_SRV_LOOKUP"@, c.srv_lookup)
        + opt_line("VAULT_MFA"@, c.mfa) + opt_line("VAULT_HTTP_PROXY"@, c.http_proxy) + opt_line(
        "VAULT_PROXY_ADDR"@,
        c.proxy_addr,
    ) + opt_line("VAULT_DISABLE_REDIRECTS"@, opt_disable_redirects_render(c.disable_redirects))
}

fn push_line(out: &mut String, key: &str, value: &str)
    ensures
        final(out)@ == old(out)@ + export_line(key@, value@),
{
    out.append("export ");
    out.append(key);
    out.append("='");
    out.append(value);
    out.append("'\n");
    proof {
        assert(out@ =~= old(out)@ + export_line(key@, value@));
    }
}

fn push_opt_line(out: &mut String, key: &str, value: &Option<String>)
    ensures
        final(out)@ == old(out)@ + opt_line(key@, value.deep_view()),
{
    match value {
        Some(v) => push_line(out, key, v.as_str()),
        None => {
            proof {
                assert(out@ =~= out@ + opt_line(key@, value.deep_view()));
            }
        },
    }
}

/// Renders the profile's environment block, exactly `render_spec`.
pub fn render(c: &Config) -> (r: String)
    ensures
        r@ == render_spec(c@),
{
    let mut out = String::new();
    push_line(&mut out, "VAULT_CONTEXT", c.name.as_str());
    push_line(&mut out, "VAULT_ADDR", c.addr.as_str());
    push_line(&mut out, "VAULT_TOKEN", c.token.as_str());
    push_opt_line(&mut out, "VAULT_CACERT", &c.cacert);
    push_opt_line(&mut out, "VAULT_TLS_SERVER_NAME", &c.tls_server_name);
    push_opt_line(&mut out, "VAULT_CAPATH", &c.capath);
    push_opt_line(&mut out, "VAULT_CLIENT_CERT", &c.client_cert);
    push_opt_line(&mut out, "VAULT_CLIENT_KEY", &c.client_key);
    push_opt_line(&mut out, "VAULT_CLIENT_TIMEOUT", &c.client_timeout);
    push_opt_line(&mut out, "VAULT_CLUSTER_ADDR", &c.cluster_addr);
    match &c.format {
        Some(v) => push_line(&mut out, "VAULT_FORMAT", v.render_value()),
        None => {},
    }
    push_opt_line(&mut out, "VAULT_LICENCE", &c.license);
    push_opt_line(&mut out, "VAULT_LICENCE_PATH", &c.license_path);
    match &c.log_level {
        Some(v) => push_line(&mut out, "VAULT_LOG_LEVEL", v.render_value()),
        None => {},
    }
    match &c.max_retries {
        Some(v) => push_line(&mut out, "VAULT_MAX_RETRIES", v.render_value()),
        None => {},
    }
    push_opt_line(&mut out, "VAULT_REDIRECT_ADDR", &c.redirect_addr);
    match &c.skip_verify {
        Some(v) => push_line(&mut out, "VAULT_SKIP_VERIFY", v.render_value()),
        None => {},
    }
    match &c.cli_no_color {
        Some(v) => push_line(&mut out, "VAULT_CLI_NO_COLOR", v.render_value()),
        None => {},
    }
    push_opt_line(&mut out, "VAULT_RATE_LIMIT", &c.rate_limit);
    push_opt_line(&mut out, "VAULT_NAMESPACE", &c.namespace);
    push_opt_line(&mut out, "VAULT_SRV_LOOKUP", &c.srv_lookup);
    push_opt_line(&mut out, "VAULT_MFA", &c.mfa);
    push_opt_line(&mut out, "VAULT_HTTP_PROXY", &c.http_proxy);
    push_opt_line(&mut out, "VAULT_PROXY_ADDR", &c.proxy_addr);
    match &c.disable_redirects {
        Some(v) => push_line(&mut out, "VAULT_DISABLE_REDIRECTS", v.render_value()),
        None => {},
    }
    proof {
        assert(out@ =~= render_spec(c@));
    }
    out
}

/// With every optional field absent, the block is exactly the three
/// required lines: context name, address, token, in that order.
pub proof fn lemma_render_minimal(c: ConfigV)
    requires
        c.cacert is None,
        c.tls_server_name is None,
        c.capath is None,
        c.client_cert is None,
        c.client_key is None,
        c.client_timeout is None,
        c.cluster_addr is None,
        c.format is None,
        c.license is None,
        c.license_path is None,
        c.log_level is None,
        c.max_retries is None,
        c.redirect_addr is None,
        c.skip_verify is None,
        c.cli_no_color is None,
        c.rate_limit is None,
        c.namespace is None,
        c.srv_lookup is None,
        c.mfa is None,
        c.http_proxy is None,
        c.proxy_addr is None,
        c.disable_redirects is None,
    ensures
        render_spec(c) == export_line("VAULT_CONTEXT"@, c.name) + export_line(
            "VAULT_ADDR"@,
            c.addr,
        ) + export_line("VAULT_TOKEN"@, c.token),
{
    assert(render_spec(c) =~= export_line("VAULT_CONTEXT"@, c.name) + export_line(
        "VAULT_ADDR"@,
        c.addr,
    ) + export_line("VAULT_TOKEN"@, c.token));
}

/// With every optional field present, the block is exactly these
/// twenty-five lines in this order, whatever the field values are.
pub proof fn lemma_render_full(c: ConfigV)
    requires
        c.cacert is Some,
        c.tls_server_name is Some,
        c.capath is Some,
        c.client_cert is Some,
        c.client_key is Some,
        c.client_timeout is Some,
        c.cluster_addr is Some,
        c.format is Some,
        c.license is Some,
        c.license_path is Some,
        c.log_level is Some,
        c.max_retries is Some,
        c.redirect_addr is Some,
        c.skip_verify is Some,
        c.cli_no_color is Some,
        c.rate_limit is Some,
        c.namespace is Some,
        c.srv_lookup is Some,
        c.mfa is Some,
        c.http_proxy is Some,
        c.proxy_addr is Some,
        c.disable_redirects is Some,
    ensures
        render_spec(c) == export_line("VAULT_CONTEXT"@, c.name) + export_line(
            "VAULT_ADDR"@,
            c.addr,
        ) + export_line("VAULT_TOKEN"@, c.token) + export_line("VAULT_CACERT"@, c.cacert->0)
            + export_line("VAULT_TLS_SERVER_NAME"@, c.tls_server_name->0) + export_line(
            "VAULT_CAPATH"@,
            c.capath->0,
        ) + export_line("VAULT_CLIENT_CERT"@, c.client_cert->0) + export_line(
            "VAULT_CLIENT_KEY"@,
            c.client_key->0,
        ) + export_line("VAULT_CLIENT_TIMEOUT"@, c.client_timeout->0) + export_line(
            "VAULT_CLUSTER_ADDR"@,
            c.cluster_addr->0,
        ) + export_line("VAULT_FORMAT"@, format_render(c.format->0)) + export_line(
            "VAULT_LICENCE"@,
            c.license->0,
        ) + export_line("VAULT_LICENCE_PATH"@, c.license_path->0) + export_line(
            "VAULT_LOG_LEVEL"@,
            log_level_render(c.log_level->0),
        ) + export_line("VAULT_MAX_RETRIES"@, max_retries_render(c.max_retries->0)) + export_line(
            "VAULT_REDIRECT_ADDR"@,
            c.redirect_addr->0,
        ) + export_line("VAULT_SKIP_VERIFY"@, skip_verify_render(c.skip_verify->0)) + export_line(
            "VAULT_CLI_NO_COLOR"@,
            cli_no_color_render(c.cli_no_color->0),
        ) + export_line("VAULT_RATE_LIMIT"@, c.rate_limit->0) + export_line(
            "VAULT_NAMESPACE"@,
            c.namespace->0,
        ) + export_line("VAULT_SRV_LOOKUP"@, c.srv_lookup->0) + export_line("VAULT_MFA"@, c.mfa->0)
            + export_line("VAULT_HTTP_PROXY"@, c.http_proxy->0) + export_line(
            "VAULT_PROXY_ADDR"@,
            c.proxy_addr->0,
        ) + export_line(
            "VAULT_DISABLE_REDIRECTS"@,
            disable_redirects_render(c.disable_redirects->0),
        ),
{
}

} // verus!
