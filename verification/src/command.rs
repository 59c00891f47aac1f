//! Construction of the worker's command line from a tunnel configuration.
//! This is a pure function of the configuration: the whole invocation is a
//! single URL-shaped argument with a query string.

use vstd::prelude::*;
use crate::text::str_eq;

verus! {

/// A tunnel configuration as delivered by a start request.
#[derive(Debug)]
pub struct NodePassConfig {
    pub mode: String,
    pub tunnel_addr: String,
    pub target_addr: String,
    pub log_level: String,
    pub tls_mode: String,
    pub cert_file: Option<String>,
    pub key_file: Option<String>,
}

/// The mathematical content of a configuration.
pub ghost struct ConfigView {
    pub mode: Seq<char>,
    pub tunnel_addr: Seq<char>,
    pub target_addr: Seq<char>,
    pub log_level: Seq<char>,
    pub tls_mode: Seq<char>,
    pub cert_file: Option<Seq<char>>,
    pub key_file: Option<Seq<char>>,
}

impl View for NodePassConfig {
    type V = ConfigView;

    open spec fn view(&self) -> ConfigView {
        ConfigView {
            mode: self.mode@,
            tunnel_addr: self.tunnel_addr@,
            target_addr: self.target_addr@,
            log_level: self.log_level@,
            tls_mode: self.tls_mode@,
            cert_file: self.cert_file.deep_view(),
            key_file: self.key_file.deep_view(),
        }
    }
}

impl NodePassConfig {
    /// A field-by-field copy whose view equals this one's.
    pub fn duplicate(&self) -> (r: NodePassConfig)
        ensures
            r@ == self@,
    {
        NodePassConfig {
            mode: self.mode.clone(),
            tunnel_addr: self.tunnel_addr.clone(),
            target_addr: self.target_addr.clone(),
            log_level: self.log_level.clone(),
            tls_mode: self.tls_mode.clone(),
            cert_file: match &self.cert_file {
                Some(c) => Some(c.clone()),
                None => None,
            },
            key_file: match &self.key_file {
                Some(k) => Some(k.clone()),
                None => None,
            },
        }
    }
}

/// An optional field contributes a parameter only when present and
/// non-empty.
pub open spec fn present_nonempty(f: Option<Seq<char>>) -> bool {
    match f {
        Some(s) => s.len() > 0,
        None => false,
    }
}

/// The query parameters, in order: `log=` always; `tls=` for every mode but
/// `client`; `crt=` and `key=` only under `tls_mode == "2"`, each only when
/// its field is present and non-empty.
pub open spec fn spec_params(c: ConfigView) -> Seq<Seq<char>> {
    let base = seq!["log="@ + c.log_level];
    if c.mode == "client"@ {
        base
    } else {
        let with_tls = base.push("tls="@ + c.tls_mode);
        if c.tls_mode == "2"@ {
            let with_crt = if present_nonempty(c.cert_file) {
                with_tls.push("crt="@ + c.cert_file->0)
            } else {
                with_tls
            };
            if present_nonempty(c.key_file) {
                with_crt.push("key="@ + c.key_file->0)
            } else {
                with_crt
            }
        } else {
            with_tls
        }
    }
}

/// The parts joined with `&`.
pub open spec fn join_amp(parts: Seq<Seq<char>>) -> Seq<char>
    decreases parts.len(),
{
    if parts.len() == 0 {
        Seq::empty()
    } else if parts.len() == 1 {
        parts[0]
    } else {
        join_amp(parts.drop_last()) + "&"@ + parts.last()
    }
}

/// The single command-line argument handed to the worker.
pub open spec fn spec_command_url(c: ConfigView) -> Seq<char> {
    c.mode + "://"@ + c.tunnel_addr + "/"@ + c.target_addr + "?"@ + join_amp(spec_params(c))
}

pub fn build_nodepass_command(config: &NodePassConfig) -> (r: Result<Vec<String>, String>)
    ensures
        r matches Ok(v) && v@.len() == 1 && v@[0]@ == spec_command_url(config@),
{
    let mut params: Vec<String> = Vec::new();
    let mut p_log = String::from_str("log=");
    p_log.append(config.log_level.as_str());
    params.push(p_log);
    if !str_eq(config.mode.as_str(), "client") {
        let mut p_tls = String::from_str("tls=");
        p_tls.append(config.tls_mode.as_str());
        params.push(p_tls);
        if str_eq(config.tls_mode.as_str(), "2") {
            match &config.cert_file {
                Some(cert) => {
                    if !cert.as_str().is_empty() {
                        let mut p_crt = String::from_str("crt=");
                        p_crt.append(cert.as_str());
                        params.push(p_crt);
                    }
                },
                None => {},
            }
            match &config.key_file {
                Some(key) => {
                    if !key.as_str().is_empty() {
                        let mut p_key = String::from_str("key=");
                        p_key.append(key.as_str());
                        params.push(p_key);
                    }
                },
                None => {},
            }
        }
    }
    assert(params.deep_view() =~= spec_params(config@));

    let mut query = String::new();
    let mut i: usize = 0;
    while i < params.len()
        invariant
            i <= params@.len(),
            params.deep_view() == spec_params(config@),
            query@ == join_amp(params.deep_view().take(i as int)),
        decreases params@.len() - i,
    {
        if i > 0 {
            query.append("&");
        }
        query.append(params[i].as_str());
        proof {
            let dv = params.deep_view();
            assert(dv.take(i + 1).drop_last() =~= dv.take(i as int));
            assert(dv.take(i + 1).last() == dv[i as int]);
            if i == 0 {
                assert(Seq::<char>::empty() + dv[0] =~= dv[0]);
            }
        }
        i = i + 1;
    }
    assert(params.deep_view().take(params@.len() as int) =~= params.deep_view());

    let mut url = String::new();
    url.append(config.mode.as_str());
    url.append("://");
    url.append(config.tunnel_addr.as_str());
    url.append("/");
    url.append(config.target_addr.as_str());
    url.append("?");
    url.append(query.as_str());
    let mut out: Vec<String> = Vec::new();
    out.push(url);
    Ok(out)
}

/// A parameter starts with the given key prefix.
pub open spec fn param_with_prefix(parts: Seq<Seq<char>>, prefix: Seq<char>) -> bool {
    exists|i: int|
        0 <= i < parts.len() && prefix.len() <= parts[i].len() && parts[i].subrange(
            0,
            prefix.len() as int,
        ) == prefix
}

/// The `tls`, `crt` and `key` parameters appear if and only if the stated
/// mode, TLS-mode and non-empty-field conditions hold.
pub proof fn lemma_command_params_iff(c: ConfigView)
    ensures
        param_with_prefix(spec_params(c), "tls="@) <==> c.mode != "client"@,
        param_with_prefix(spec_params(c), "crt="@) <==> (c.mode != "client"@ && c.tls_mode == "2"@
            && present_nonempty(c.cert_file)),
        param_with_prefix(spec_params(c), "key="@) <==> (c.mode != "client"@ && c.tls_mode == "2"@
            && present_nonempty(c.key_file)),
{
    reveal_strlit("log=");
    reveal_strlit("tls=");
    reveal_strlit("crt=");
    reveal_strlit("key=");
    let ps = spec_params(c);
    assert(ps[0] == "log="@ + c.log_level);
    assert forall|i: int, p: Seq<char>|
        0 <= i < ps.len() && p.len() == 4 && ps[i].subrange(0, 4) == p implies ps[i][0] == p[0]
        && ps[i][1] == p[1] && ps[i][2] == p[2] && ps[i][3] == p[3] by {
        assert(ps[i].subrange(0, 4)[0] == ps[i][0]);
        assert(ps[i].subrange(0, 4)[1] == ps[i][1]);
        assert(ps[i].subrange(0, 4)[2] == ps[i][2]);
        assert(ps[i].subrange(0, 4)[3] == ps[i][3]);
    }
    if c.mode != "client"@ {
        let tls_param = "tls="@ + c.tls_mode;
        assert(ps[1] == tls_param);
        assert(tls_param.subrange(0, 4) =~= "tls="@);
        assert(param_with_prefix(ps, "tls="@));
        if c.tls_mode == "2"@ {
            if present_nonempty(c.cert_file) {
                let crt_param = "crt="@ + c.cert_file->0;
                assert(ps[2] == crt_param);
                assert(crt_param.subrange(0, 4) =~= "crt="@);
                assert(param_with_prefix(ps, "crt="@));
            }
            if present_nonempty(c.key_file) {
                let key_param = "key="@ + c.key_file->0;
                assert(ps.last() == key_param);
                assert(key_param.subrange(0, 4) =~= "key="@);
                assert(param_with_prefix(ps, "key="@));
            }
        }
    }
}

} // verus!
