//! Operations on the in-memory profile store: lookup by name, the
//! exhaustive delete, the first-match rename, and the seed profile
//! written when no store file exists yet.

use vstd::prelude::*;

use crate::model::{
    CliNoColor, Config, ConfigV, DisableRedirects, Format, LogLevel, MaxRetries, SharedData,
    SkipVerify,
};
use crate::text::str_eq;

verus! {

/// Index of the first profile called `name`, if any.
pub open spec fn find_profile(cs: Seq<ConfigV>, name: Seq<char>) -> Option<nat>
    decreases cs.len(),
{
    if cs.len() == 0 {
        None
    } else if cs[0].name == name {
        Some(0)
    } else {
        match find_profile(cs.skip(1), name) {
            Some(i) => Some((i + 1) as nat),
            None => None,
        }
    }
}

pub proof fn lemma_find_profile(cs: Seq<ConfigV>, name: Seq<char>)
    ensures
        match find_profile(cs, name) {
            Some(i) => i < cs.len() && cs[i as int].name == name && forall|j: int|
                0 <= j < i ==> cs[j].name != name,
            None => forall|j: int| 0 <= j < cs.len() ==> cs[j].name != name,
        },
    decreases cs.len(),
{
    if cs.len() != 0 && cs[0].name != name {
        lemma_find_profile(cs.skip(1), name);
        match find_profile(cs.skip(1), name) {
            Some(i) => {
                assert(cs[i as int + 1] == cs.skip(1)[i as int]);
                assert forall|j: int| 0 <= j < i + 1 implies cs[j].name != name by {
                    if j > 0 {
                        assert(cs.skip(1)[j - 1] == cs[j]);
                    }
                }
            },
            None => {
                assert forall|j: int| 0 <= j < cs.len() implies cs[j].name != name by {
                    if j > 0 {
                        assert(cs.skip(1)[j - 1] == cs[j]);
                    }
                }
            },
        }
    }
}

/// A position that matches, with nothing matching before it, is what
/// `find_profile` returns.
pub proof fn lemma_first_match_is(cs: Seq<ConfigV>, name: Seq<char>, i: int)
    requires
        0 <= i < cs.len(),
        cs[i].name == name,
        forall|j: int| 0 <= j < i ==> cs[j].name != name,
    ensures
        find_profile(cs, name) == Some(i as nat),
{
    lemma_find_profile(cs, name);
    match find_profile(cs, name) {
        Some(fi) => {
            if fi < i {
                assert(cs[fi as int].name != name);
            }
            if i < fi {
                assert(cs[i].name != name);
            }
        },
        None => {
            assert(cs[i].name != name);
        },
    }
}

/// The retain predicate of the exhaustive delete: keeps every profile
/// whose name differs from the deleted one.
pub open spec fn keeps(name: Seq<char>) -> spec_fn(ConfigV) -> bool {
    |c: ConfigV| c.name != name
}

/// `c` with its name replaced and every other field kept.
pub open spec fn with_name(c: ConfigV, name: Seq<char>) -> ConfigV {
    ConfigV {
        name: name,
        addr: c.addr,
        token: c.token,
        cacert: c.cacert,
        tls_server_name: c.tls_server_name,
        capath: c.capath,
        client_cert: c.client_cert,
        client_key: c.client_key,
        client_timeout: c.client_timeout,
        cluster_addr: c.cluster_addr,
        format: c.format,
        license: c.license,
        license_path: c.license_path,
        log_level: c.log_level,
        max_retries: c.max_retries,
        redirect_addr: c.redirect_addr,
        skip_verify: c.skip_verify,
        cli_no_color: c.cli_no_color,
        rate_limit: c.rate_limit,
        namespace: c.namespace,
        srv_lookup: c.srv_lookup,
        mfa: c.mfa,
        http_proxy: c.http_proxy,
        proxy_addr: c.proxy_addr,
        disable_redirects: c.disable_redirects,
    }
}

impl SharedData {
    /// Linear scan for the first profile with the given name.
    pub fn find_by_name(&self, name: &str) -> (r: Option<&Config>)
        ensures
            ({
                let cs = self.configs.deep_view();
                let f = find_profile(cs, name@);
                match r {
                    Some(c) => f is Some && c@ == cs[f->0 as int],
                    None => f is None,
                }
            }),
    {
        proof {
            lemma_find_profile(self.configs.deep_view(), name@);
        }
        let n = self.configs.len();
        let mut i: usize = 0;
        while i < n
            invariant
                n == self.configs.len(),
                i <= n,
                forall|j: int| 0 <= j < i ==> self.configs.deep_view()[j].name != name@,
            decreases n - i,
        {
            if str_eq(self.configs[i].name.as_str(), name) {
                proof {
                    lemma_first_match_is(self.configs.deep_view(), name@, i as int);
                }
                return Some(&self.configs[i]);
            }
            i = i + 1;
        }
        None
    }

    /// Removes every profile with the given name, keeping the order of
    /// the rest.  Deleting an absent name leaves the store unchanged.
    pub fn delete_by_name(&mut self, name: &str)
        ensures
            final(self).configs.deep_view() == old(self).configs.deep_view().filter(
                keeps(name@),
            ),
    {
        let ghost cs = self.configs.deep_view();
        let mut kept: Vec<Config> = Vec::new();
        let n = self.configs.len();
        let mut i: usize = 0;
        while i < n
            invariant
                n == self.configs.len(),
                i <= n,
                cs == self.configs.deep_view(),
                kept.deep_view() == cs.subrange(0, i as int).filter(keeps(name@)),
            decreases n - i,
        {
            let ghost before = kept.deep_view();
            if !str_eq(self.configs[i].name.as_str(), name) {
                kept.push(self.configs[i].clone());
            }
            proof {
                assert(cs.subrange(0, i + 1) =~= cs.subrange(0, i as int) + seq![cs[i as int]]);
                Seq::filter_distributes_over_add(
                    cs.subrange(0, i as int),
                    seq![cs[i as int]],
                    keeps(name@),
                );
                reveal_with_fuel(Seq::filter, 2);
                assert(seq![cs[i as int]].drop_last() =~= Seq::<ConfigV>::empty());
                if keeps(name@)(cs[i as int]) {
                    assert(seq![cs[i as int]].filter(keeps(name@)) =~= seq![cs[i as int]]);
                    assert(kept.deep_view() =~= before + seq![cs[i as int]]);
                } else {
                    assert(seq![cs[i as int]].filter(keeps(name@)) =~= Seq::<ConfigV>::empty());
                    assert(kept.deep_view() =~= before + Seq::<ConfigV>::empty());
                }
            }
            i = i + 1;
        }
        proof {
            assert(cs.subrange(0, n as int) =~= cs);
        }
        self.configs = kept;
    }

    /// Renames the first profile with the old name and reports whether
    /// one was found; an absent old name leaves the store unchanged.
    pub fn rename_by_name(&mut self, old_name: &str, new_name: &str) -> (renamed: bool)
        ensures
            ({
                let cs = old(self).configs.deep_view();
                match find_profile(cs, old_name@) {
                    Some(i) => renamed && final(self).configs.deep_view() == cs.update(
                        i as int,
                        with_name(cs[i as int], new_name@),
                    ),
                    None => !renamed && final(self).configs.deep_view() == cs,
                }
            }),
    {
        let ghost cs = self.configs.deep_view();
        proof {
            lemma_find_profile(cs, old_name@);
        }
        let n = self.configs.len();
        let mut i: usize = 0;
        while i < n
            invariant
                n == self.configs.len(),
                i <= n,
                cs == self.configs.deep_view(),
                cs == old(self).configs.deep_view(),
                forall|j: int| 0 <= j < i ==> cs[j].name != old_name@,
            decreases n - i,
        {
            if str_eq(self.configs[i].name.as_str(), old_name) {
                proof {
                    lemma_first_match_is(cs, old_name@, i as int);
                }
                let mut c = self.configs.remove(i);
                c.name = String::from_str(new_name);
                proof {
                    assert(c@ == with_name(cs[i as int], new_name@));
                }
                self.configs.insert(i, c);
                proof {
                    let after = self.configs.deep_view();
                    let want = cs.update(i as int, with_name(cs[i as int], new_name@));
                    assert forall|j: int| 0 <= j < after.len() implies after[j] == want[j] by {
                        assert(after[j] == self.configs@[j]@);
                    }
                    assert(after =~= want);
                }
                return true;
            }
            i = i + 1;
        }
        false
    }
}

/// The placeholder profile written into a freshly created store file.
pub open spec fn seed_config_v() -> ConfigV {
    ConfigV {
        name: "dummy_vault"@,
        addr: "127.0.0.1"@,
        token: "hvs.abcdefghijklmnopqrstxyz"@,
        cacert: Some("ca.crt"@),
        tls_server_name: Some("vault.local"@),
        capath: Some("/etc/ssl/certs"@),
        client_cert: Some("cert.crt"@),
        client_key: Some("cert.key"@),
        client_timeout: Some("30"@),
        cluster_addr: Some("1.1.1.1"@),
        format: Some(Format::Table),
        license: Some("license.lic"@),
        license_path: Some("/etc/vault/license"@),
        log_level: Some(LogLevel::Info),
        max_retries: Some(MaxRetries::Two),
        redirect_addr: Some("1.0.0.1"@),
        skip_verify: Some(SkipVerify::False),
        cli_no_color: Some(CliNoColor::False),
        rate_limit: Some("null"@),
        namespace: Some("null"@),
        srv_lookup: Some("null"@),
        mfa: Some("null"@),
        http_proxy: Some("null"@),
        proxy_addr: Some("null"@),
        disable_redirects: Some(DisableRedirects::False),
    }
}

/// Builds the placeholder profile that seeds a new store.
pub fn seed_config() -> (r: Config)
    ensures
        r@ == seed_config_v(),
{
    Config {
        name: String::from_str("dummy_vault"),
        addr: String::from_str("127.0.0.1"),
        token: String::from_str("hvs.abcdefghijklmnopqrstxyz"),
        cacert: Some(String::from_str("ca.crt")),
        tls_server_name: Some(String::from_str("vault.local")),
        capath: Some(String::from_str("/etc/ssl/certs")),
        client_cert: Some(String::from_str("cert.crt")),
        client_key: Some(String::from_str("cert.key")),
        client_timeout: Some(String::from_str("30")),
        cluster_addr: Some(String::from_str("1.1.1.1")),
        format: Some(Format::Table),
        license: Some(String::from_str("license.lic")),
        license_path: Some(String::from_str("/etc/vault/license")),
        log_level: Some(LogLevel::Info),
        max_retries: Some(MaxRetries::Two),
        redirect_addr: Some(String::from_str("1.0.0.1")),
        skip_verify: Some(SkipVerify::False),
        cli_no_color: Some(CliNoColor::False),
        rate_limit: Some(String::from_str("null")),
        namespace: Some(String::from_str("null")),
        srv_lookup: Some(String::from_str("null")),
        mfa: Some(String::from_str("null")),
        http_proxy: Some(String::from_str("null")),
        proxy_addr: Some(String::from_str("null")),
        disable_redirects: Some(DisableRedirects::False),
    }
}

/// The delete is exhaustive: nothing in the retained store bears the
/// deleted name, whichever positions it occupied.
pub proof fn lemma_delete_exhaustive(cs: Seq<ConfigV>, name: Seq<char>)
    ensures
        forall|i: int|
            0 <= i < cs.filter(keeps(name)).len() ==> (#[trigger] cs.filter(keeps(name))[i]).name
                != name,
{
    assert forall|i: int| 0 <= i < cs.filter(keeps(name)).len() implies (#[trigger] cs.filter(
        keeps(name),
    )[i]).name != name by {
        cs.lemma_filter_pred(keeps(name), i);
    }
}

} // verus!
