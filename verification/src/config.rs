//! Credential resolution and the translation service's base URL.
//!
//! The credential comes from the first of: the CLI flag, the environment
//! variable, the per-user config file (either a bare value or a
//! `DEEPL_API_KEY=value` line), in that order. The caller reads the flag,
//! the variable, and the files, and hands their contents in as plain
//! values.

use vstd::prelude::*;

use crate::error::Error;
use crate::text::{str_eq, trim_spec, trim_str};

verus! {

/// The credential taken from one config file's contents: the trimmed line,
/// with a `DEEPL_API_KEY=` prefix stripped; empty values count as absent.
pub open spec fn key_from_config_line(content: Seq<char>) -> Option<Seq<char>> {
    let line = trim_spec(content);
    if line.len() == 0 {
        None
    } else if line.len() >= "DEEPL_API_KEY="@.len() && line.subrange(
        0,
        "DEEPL_API_KEY="@.len() as int,
    ) == "DEEPL_API_KEY="@ {
        let v = trim_spec(line.skip("DEEPL_API_KEY="@.len() as int));
        if v.len() == 0 {
            None
        } else {
            Some(v)
        }
    } else {
        Some(line)
    }
}

/// The resolved credential: the CLI flag when non-empty, else the
/// environment variable when it has non-whitespace content, else the first
/// config file that yields a value.
pub open spec fn resolved_key(
    cli: Option<Seq<char>>,
    env: Option<Seq<char>>,
    xdg: Option<Seq<char>>,
    home: Option<Seq<char>>,
) -> Option<Seq<char>> {
    if cli is Some && cli->0.len() > 0 {
        Some(cli->0)
    } else if env is Some && trim_spec(env->0).len() > 0 {
        Some(env->0)
    } else if xdg is Some && key_from_config_line(xdg->0) is Some {
        key_from_config_line(xdg->0)
    } else if home is Some && key_from_config_line(home->0) is Some {
        key_from_config_line(home->0)
    } else {
        None
    }
}

/// The view of an optional string.
pub open spec fn opt_view(o: Option<&str>) -> Option<Seq<char>> {
    match o {
        Some(s) => Some(s@),
        None => None,
    }
}

/// The credential taken from one config file's contents, as
/// `key_from_config_line` describes it.
fn config_line_key(content: &str) -> (r: Option<String>)
    ensures
        match r {
            Some(v) => key_from_config_line(content@) == Some(v@),
            None => key_from_config_line(content@) is None,
        },
{
    let line = trim_str(content);
    let n = line.unicode_len();
    if n == 0 {
        return None;
    }
    proof {
        reveal_strlit("DEEPL_API_KEY=");
    }
    if n >= 14 && str_eq(line.substring_char(0, 14), "DEEPL_API_KEY=") {
        proof {
            assert(line@.subrange(0, 14) == "DEEPL_API_KEY="@);
            assert(line@.subrange(14, n as int) =~= line@.skip(14));
        }
        let v = trim_str(line.substring_char(14, n));
        if v.unicode_len() == 0 {
            None
        } else {
            Some(String::from_str(v))
        }
    } else {
        Some(String::from_str(line))
    }
}

/// Resolves the translation credential. `cli_key` is the CLI flag,
/// `env_key` the environment variable's value, `xdg_config` and
/// `home_config` the contents of the two candidate config files, each
/// `None` when absent or unreadable. The CLI flag always wins; failure
/// names no source, it reports that none supplied a value.
pub fn resolve_deepl_api_key(
    cli_key: Option<&str>,
    env_key: Option<&str>,
    xdg_config: Option<&str>,
    home_config: Option<&str>,
) -> (r: Result<String, Error>)
    ensures
        ({
            let k = resolved_key(
                opt_view(cli_key),
                opt_view(env_key),
                opt_view(xdg_config),
                opt_view(home_config),
            );
            match r {
                Ok(s) => k == Some(s@),
                Err(Error::MissingApiKey) => k is None,
                Err(_) => false,
            }
        }),
{
    if let Some(k) = cli_key {
        if !k.is_empty() {
            return Ok(String::from_str(k));
        }
    }
    if let Some(k) = env_key {
        if !trim_str(k).is_empty() {
            return Ok(String::from_str(k));
        }
    }
    if let Some(content) = xdg_config {
        if let Some(v) = config_line_key(content) {
            return Ok(v);
        }
    }
    if let Some(content) = home_config {
        if let Some(v) = config_line_key(content) {
            return Ok(v);
        }
    }
    Err(Error::MissingApiKey)
}

/// The CLI-supplied credential always wins: whenever the flag holds a
/// non-empty value, resolution returns it, whatever the environment
/// variable and both config files hold.
pub proof fn lemma_cli_key_wins(
    cli: Seq<char>,
    env: Option<Seq<char>>,
    xdg: Option<Seq<char>>,
    home: Option<Seq<char>>,
)
    requires
        cli.len() > 0,
    ensures
        resolved_key(Some(cli), env, xdg, home) == Some(cli),
{
}

/// The translation service's base URL: the environment override when set,
/// else the fixed default host.
pub fn deepl_base_url(env_base: Option<&str>) -> (r: String)
    ensures
        match env_base {
            Some(e) => r@ == e@,
            None => r@ == "https://api-free.deepl.com"@,
        },
{
    match env_base {
        Some(e) => String::from_str(e),
        None => String::from_str("https://api-free.deepl.com"),
    }
}

} // verus!
