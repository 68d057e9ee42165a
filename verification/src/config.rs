//! Runtime configuration: an immutable snapshot of operational parameters,
//! rebuilt wholesale from plain values on startup and on every reload. Every
//! pattern, template and timezone is validated during the build; any failure
//! aborts the whole build, so a caller either installs a complete new
//! snapshot or keeps the old one.

use vstd::prelude::*;

use crate::re_acl::{acl_match_at, acl_matches, ReAcl};
use crate::re_engine::{re_compile, re_pattern, regex_valid};
use crate::re_mut::ReMut;
use crate::strmap::StrMap;
use crate::time_fmt::{tz_name_valid, tz_valid};
use crate::tmpl::{render_url_template, template_parse_ok, template_parses};

verus! {

/// Verbosity selected by the command-line switches.
#[derive(Clone, Copy, PartialEq, Eq, Structural, Debug)]
pub enum LogLevel {
    Trace,
    Debug,
    Info,
    Error,
}

/// Common command-line options: verbosity switches and the two config paths.
#[derive(Debug)]
pub struct OptsCommon {
    pub verbose: bool,
    pub debug: bool,
    pub trace: bool,
    pub bot_config: String,
    pub irc_config: String,
}

impl OptsCommon {
    /// The most verbose switch that is set wins; the default is errors only.
    pub open spec fn spec_loglevel(&self) -> LogLevel {
        if self.trace {
            LogLevel::Trace
        } else if self.debug {
            LogLevel::Debug
        } else if self.verbose {
            LogLevel::Info
        } else {
            LogLevel::Error
        }
    }

    pub fn get_loglevel(&self) -> (r: LogLevel)
        ensures
            r == self.spec_loglevel(),
    {
        if self.trace {
            LogLevel::Trace
        } else if self.debug {
            LogLevel::Debug
        } else if self.verbose {
            LogLevel::Info
        } else {
            LogLevel::Error
        }
    }
}

/// The common part of a bot configuration file.
#[derive(Debug)]
pub struct ConfigCommon {
    pub irc_log_dir: String,
    pub owner: String,
    pub channel: String,
    pub o_password: String,
    pub v_password: String,
}

/// The two texts a templated remote-fetch command is made of.
pub ghost struct SpecUrlCmd {
    pub url_tmpl: Seq<char>,
    pub output_filter: Seq<char>,
}

/// A templated remote-fetch command as configured: a URL template and an
/// output-extraction pattern, both still plain text.
#[derive(Debug)]
pub struct RawUrlCmd {
    pub url_tmpl: String,
    pub output_filter: String,
}

impl DeepView for RawUrlCmd {
    type V = SpecUrlCmd;

    open spec fn deep_view(&self) -> SpecUrlCmd {
        SpecUrlCmd { url_tmpl: self.url_tmpl@, output_filter: self.output_filter@ }
    }
}

/// A validated templated remote-fetch command: the template text parses and
/// the output filter is compiled.
#[derive(Debug)]
pub struct UrlCmd {
    url_tmpl: String,
    output_filter: String,
    output_filter_re: regex::Regex,
}

impl DeepView for UrlCmd {
    type V = SpecUrlCmd;

    closed spec fn deep_view(&self) -> SpecUrlCmd {
        SpecUrlCmd { url_tmpl: self.url_tmpl@, output_filter: self.output_filter@ }
    }
}

/// A configuration value that a reload must reject.
#[derive(Debug)]
pub enum ConfigError {
    BadAclPattern(String),
    BadUrlPattern(String),
    BadMutPattern(String),
    BadFilterPattern(String),
    BadTemplate(String),
    BadTimezone(String),
}

pub open spec fn spec_config_error_message(e: ConfigError) -> Seq<char> {
    match e {
        ConfigError::BadAclPattern(p) => "bad ACL pattern: "@ + p@,
        ConfigError::BadUrlPattern(p) => "bad URL pattern: "@ + p@,
        ConfigError::BadMutPattern(p) => "bad URL rewrite pattern: "@ + p@,
        ConfigError::BadFilterPattern(p) => "bad output filter pattern: "@ + p@,
        ConfigError::BadTemplate(p) => "bad URL template: "@ + p@,
        ConfigError::BadTimezone(p) => "bad timezone: "@ + p@,
    }
}

impl ConfigError {
    /// The operator-visible description of what the reload rejected.
    pub fn message(&self) -> (r: String)
        ensures
            r@ == spec_config_error_message(*self),
    {
        match self {
            ConfigError::BadAclPattern(p) => "bad ACL pattern: ".to_owned().concat(p.as_str()),
            ConfigError::BadUrlPattern(p) => "bad URL pattern: ".to_owned().concat(p.as_str()),
            ConfigError::BadMutPattern(p) => "bad URL rewrite pattern: ".to_owned().concat(
                p.as_str(),
            ),
            ConfigError::BadFilterPattern(p) => "bad output filter pattern: ".to_owned().concat(
                p.as_str(),
            ),
            ConfigError::BadTemplate(p) => "bad URL template: ".to_owned().concat(p.as_str()),
            ConfigError::BadTimezone(p) => "bad timezone: ".to_owned().concat(p.as_str()),
        }
    }
}

impl UrlCmd {
    #[verifier::type_invariant]
    spec fn wf(&self) -> bool {
        re_pattern(self.output_filter_re) == self.output_filter@
    }

    /// Validate one templated command: its output filter must compile, its
    /// template must parse, and the template must render with the placeholder
    /// argument text `"x"` (word list `["x"]`). The render outcome is the one
    /// thing the outside call decides, so success cannot be promised; each
    /// error names the value it rejects.
    pub fn new(raw: &RawUrlCmd) -> (r: Result<UrlCmd, ConfigError>)
        ensures
            r matches Ok(c) ==> c.deep_view() == raw.deep_view() && regex_valid(
                raw.output_filter@,
            ) && template_parses(raw.url_tmpl@),
            !(regex_valid(raw.output_filter@) && template_parses(raw.url_tmpl@)) ==> r is Err,
            r matches Err(e) ==> match e {
                ConfigError::BadFilterPattern(p) => p@ == raw.output_filter@ && !regex_valid(
                    raw.output_filter@,
                ),
                ConfigError::BadTemplate(p) => p@ == raw.url_tmpl@ && regex_valid(
                    raw.output_filter@,
                ),
                _ => false,
            },
    {
        let re = match re_compile(raw.output_filter.as_str()) {
            Some(re) => re,
            None => {
                return Err(ConfigError::BadFilterPattern(raw.output_filter.clone()));
            }
        };
        if !template_parse_ok(raw.url_tmpl.as_str()) {
            return Err(ConfigError::BadTemplate(raw.url_tmpl.clone()));
        }
        let mut probe_args: Vec<String> = Vec::new();
        probe_args.push("x".to_owned());
        if render_url_template(raw.url_tmpl.as_str(), "x", &probe_args).is_none() {
            return Err(ConfigError::BadTemplate(raw.url_tmpl.clone()));
        }
        Ok(
            UrlCmd {
                url_tmpl: raw.url_tmpl.clone(),
                output_filter: raw.output_filter.clone(),
                output_filter_re: re,
            },
        )
    }

    /// The template text.
    pub fn url_tmpl(&self) -> (r: &String)
        ensures
            r@ == self.deep_view().url_tmpl,
    {
        &self.url_tmpl
    }

    /// The output-extraction pattern text.
    pub fn output_filter(&self) -> (r: &String)
        ensures
            r@ == self.deep_view().output_filter,
    {
        &self.output_filter
    }

    /// The compiled output-extraction pattern.
    pub fn filter_re(&self) -> (r: &regex::Regex)
        ensures
            re_pattern(*r) == self.deep_view().output_filter,
    {
        proof {
            use_type_invariant(&*self);
        }
        &self.output_filter_re
    }
}

/// A bot configuration as loaded: every field still a plain value.
#[derive(Debug)]
pub struct RawBotConfig {
    pub irc_log_dir: String,
    pub channel: String,
    pub privileged_nicks: StrMap<bool>,
    pub url_regex: String,
    pub url_log_db: String,
    pub url_blacklist: Vec<String>,
    pub url_fetch_channels: StrMap<bool>,
    pub url_cmd_channels: StrMap<bool>,
    pub url_mut_channels: StrMap<bool>,
    pub url_log_channels: StrMap<bool>,
    pub url_dup_complain_channels: StrMap<bool>,
    pub url_dup_expire_days: StrMap<i64>,
    pub url_dup_timezone: StrMap<String>,
    pub cmd_dumpacl: String,
    pub cmd_invite: String,
    pub cmd_join: String,
    pub cmd_mode_o: String,
    pub cmd_mode_v: String,
    pub cmd_nick: String,
    pub cmd_reload: String,
    pub cmd_say: String,
    pub mode_o_acl: Vec<String>,
    pub auto_o_acl: Vec<String>,
    pub url_cmd_list: StrMap<RawUrlCmd>,
    pub url_mut_list: Vec<(String, String)>,
}

/// An installed configuration snapshot: the plain values of the raw
/// configuration with every pattern compiled, every template validated and
/// every timezone known. Never mutated in place, only replaced wholesale.
pub struct BotConfig {
    pub irc_log_dir: String,
    pub channel: String,
    pub privileged_nicks: StrMap<bool>,
    pub url_regex: String,
    pub url_log_db: String,
    pub url_blacklist: Vec<String>,
    pub url_fetch_channels: StrMap<bool>,
    pub url_cmd_channels: StrMap<bool>,
    pub url_mut_channels: StrMap<bool>,
    pub url_log_channels: StrMap<bool>,
    pub url_dup_complain_channels: StrMap<bool>,
    pub url_dup_expire_days: StrMap<i64>,
    pub url_dup_timezone: StrMap<String>,
    pub cmd_dumpacl: String,
    pub cmd_invite: String,
    pub cmd_join: String,
    pub cmd_mode_o: String,
    pub cmd_mode_v: String,
    pub cmd_nick: String,
    pub cmd_reload: String,
    pub cmd_say: String,
    pub mode_o_acl: ReAcl,
    pub auto_o_acl: ReAcl,
    pub url_re: regex::Regex,
    pub url_cmd_list: StrMap<UrlCmd>,
    pub url_mut_re: ReMut,
}

/// Every pattern of the list is a valid one.
pub open spec fn spec_patterns_valid(l: Seq<Seq<char>>) -> bool {
    forall|i: int| 0 <= i < l.len() ==> regex_valid(#[trigger] l[i])
}

/// Every validation a reload performs that is a pure function of the raw
/// values: ACL patterns, the URL-detection pattern, rewrite patterns, output
/// filters, template parsing, and timezone names.
pub open spec fn spec_raw_valid(raw: RawBotConfig) -> bool {
    &&& spec_patterns_valid(raw.mode_o_acl.deep_view())
    &&& spec_patterns_valid(raw.auto_o_acl.deep_view())
    &&& regex_valid(raw.url_regex@)
    &&& forall|i: int|
        0 <= i < raw.url_mut_list.deep_view().len() ==> regex_valid(
            (#[trigger] raw.url_mut_list.deep_view()[i]).0,
        )
    &&& forall|i: int|
        0 <= i < raw.url_cmd_list@.len() ==> regex_valid(
            (#[trigger] raw.url_cmd_list@[i]).1.output_filter,
        ) && template_parses(raw.url_cmd_list@[i].1.url_tmpl)
    &&& forall|i: int|
        0 <= i < raw.url_dup_timezone@.len() ==> tz_valid(
            (#[trigger] raw.url_dup_timezone@[i]).1,
        )
}

/// What each build error says of the raw values: the reported text is a
/// failing value of the matching kind, taken from the raw configuration.
pub open spec fn spec_build_error_fits(e: ConfigError, raw: RawBotConfig) -> bool {
    match e {
        ConfigError::BadAclPattern(p) => !regex_valid(p@) && ((exists|i: int|
            0 <= i < raw.mode_o_acl.deep_view().len() && (#[trigger] raw.mode_o_acl.deep_view()[i])
                == p@) || (exists|i: int|
            0 <= i < raw.auto_o_acl.deep_view().len() && (#[trigger] raw.auto_o_acl.deep_view()[i])
                == p@)),
        ConfigError::BadUrlPattern(p) => p@ == raw.url_regex@ && !regex_valid(p@),
        ConfigError::BadMutPattern(p) => !regex_valid(p@) && exists|i: int|
            0 <= i < raw.url_mut_list.deep_view().len() && (
            #[trigger] raw.url_mut_list.deep_view()[i]).0 == p@,
        ConfigError::BadFilterPattern(p) => !regex_valid(p@) && exists|i: int|
            0 <= i < raw.url_cmd_list@.len() && (#[trigger] raw.url_cmd_list@[i]).1.output_filter
                == p@,
        ConfigError::BadTemplate(p) => exists|i: int|
            0 <= i < raw.url_cmd_list@.len() && (#[trigger] raw.url_cmd_list@[i]).1.url_tmpl == p@,
        ConfigError::BadTimezone(p) => !tz_valid(p@) && exists|i: int|
            0 <= i < raw.url_dup_timezone@.len() && (#[trigger] raw.url_dup_timezone@[i]).1 == p@,
    }
}

/// The snapshot holds exactly the raw values.
pub open spec fn built_from(cfg: BotConfig, raw: RawBotConfig) -> bool {
    &&& cfg.irc_log_dir@ == raw.irc_log_dir@
    &&& cfg.channel@ == raw.channel@
    &&& cfg.privileged_nicks@ == raw.privileged_nicks@
    &&& cfg.url_regex@ == raw.url_regex@
    &&& cfg.url_log_db@ == raw.url_log_db@
    &&& cfg.url_blacklist.deep_view() == raw.url_blacklist.deep_view()
    &&& cfg.url_fetch_channels@ == raw.url_fetch_channels@
    &&& cfg.url_cmd_channels@ == raw.url_cmd_channels@
    &&& cfg.url_mut_channels@ == raw.url_mut_channels@
    &&& cfg.url_log_channels@ == raw.url_log_channels@
    &&& cfg.url_dup_complain_channels@ == raw.url_dup_complain_channels@
    &&& cfg.url_dup_expire_days@ == raw.url_dup_expire_days@
    &&& cfg.url_dup_timezone@ == raw.url_dup_timezone@
    &&& cfg.cmd_dumpacl@ == raw.cmd_dumpacl@
    &&& cfg.cmd_invite@ == raw.cmd_invite@
    &&& cfg.cmd_join@ == raw.cmd_join@
    &&& cfg.cmd_mode_o@ == raw.cmd_mode_o@
    &&& cfg.cmd_mode_v@ == raw.cmd_mode_v@
    &&& cfg.cmd_nick@ == raw.cmd_nick@
    &&& cfg.cmd_reload@ == raw.cmd_reload@
    &&& cfg.cmd_say@ == raw.cmd_say@
    &&& cfg.mode_o_acl@ == raw.mode_o_acl.deep_view()
    &&& cfg.auto_o_acl@ == raw.auto_o_acl.deep_view()
    &&& cfg.url_cmd_list@ == raw.url_cmd_list@
    &&& cfg.url_mut_re@ == raw.url_mut_list.deep_view()
}

impl BotConfig {
    /// The part of the snapshot later processing relies on: the compiled
    /// URL-detection pattern is the configured one.
    pub open spec fn wf(&self) -> bool {
        re_pattern(self.url_re) == self.url_regex@
    }

    /// Build a snapshot from raw configuration values. Compiles both ACLs,
    /// the URL-detection pattern and the rewrite table, validates every
    /// templated command and parses every timezone; the first failure aborts
    /// the whole build, and on success the snapshot holds exactly the raw
    /// values. Only a templated command's probe render (an outside call) can
    /// fail beyond the named validations, so a valid configuration without
    /// templated commands must build.
    pub fn build(raw: RawBotConfig) -> (r: Result<BotConfig, ConfigError>)
        ensures
            r matches Ok(cfg) ==> built_from(cfg, raw) && cfg.wf() && spec_raw_valid(raw),
            !spec_raw_valid(raw) ==> r is Err,
            spec_raw_valid(raw) && raw.url_cmd_list@.len() == 0 ==> r is Ok,
            r matches Err(e) ==> spec_build_error_fits(e, raw),
    {
        let mode_o_acl = match ReAcl::new(&raw.mode_o_acl) {
            Ok(a) => a,
            Err(e) => {
                return Err(ConfigError::BadAclPattern(e.pattern));
            }
        };
        let auto_o_acl = match ReAcl::new(&raw.auto_o_acl) {
            Ok(a) => a,
            Err(e) => {
                return Err(ConfigError::BadAclPattern(e.pattern));
            }
        };
        let url_re = match re_compile(raw.url_regex.as_str()) {
            Some(re) => re,
            None => {
                return Err(ConfigError::BadUrlPattern(raw.url_regex));
            }
        };
        let url_mut_re = match ReMut::new(&raw.url_mut_list) {
            Ok(t) => t,
            Err(e) => {
                return Err(ConfigError::BadMutPattern(e.pattern));
            }
        };
        let mut url_cmd_list: StrMap<UrlCmd> = StrMap::new();
        let raw_cmds = raw.url_cmd_list.pairs();
        let n_cmds = raw_cmds.len();
        // Rebuild from the back: each insert prepends, so the compiled map's
        // view ends up in the raw order, last insertion of a key in front as
        // in the raw map itself.
        let mut k: usize = n_cmds;
        proof {
            assert(raw.url_cmd_list@.skip(n_cmds as int) =~= Seq::<(
                Seq<char>,
                SpecUrlCmd,
            )>::empty());
        }
        while k > 0
            invariant
                k <= n_cmds,
                n_cmds == raw_cmds@.len(),
                raw_cmds.deep_view() == raw.url_cmd_list@,
                url_cmd_list@ == raw.url_cmd_list@.skip(k as int),
                forall|i: int|
                    k <= i < n_cmds ==> regex_valid(
                        (#[trigger] raw.url_cmd_list@[i]).1.output_filter,
                    ) && template_parses(raw.url_cmd_list@[i].1.url_tmpl),
            decreases k,
        {
            let kk = k - 1;
            proof {
                assert(raw.url_cmd_list@[kk as int] == (
                    raw_cmds@[kk as int].0@,
                    raw_cmds@[kk as int].1.deep_view(),
                ));
            }
            let c = match UrlCmd::new(&raw_cmds[kk].1) {
                Ok(c) => c,
                Err(e) => {
                    return Err(e);
                }
            };
            url_cmd_list.insert(raw_cmds[kk].0.clone(), c);
            proof {
                assert(url_cmd_list@ =~= raw.url_cmd_list@.skip(kk as int));
            }
            k = kk;
        }
        proof {
            assert(raw.url_cmd_list@.skip(0) =~= raw.url_cmd_list@);
        }
        let tz_pairs = raw.url_dup_timezone.pairs();
        let n_tz = tz_pairs.len();
        let mut t: usize = 0;
        while t < n_tz
            invariant
                t <= n_tz,
                n_tz == tz_pairs@.len(),
                tz_pairs.deep_view() == raw.url_dup_timezone@,
                forall|i: int| 0 <= i < t ==> tz_valid((#[trigger] raw.url_dup_timezone@[i]).1),
            decreases n_tz - t,
        {
            if !tz_name_valid(tz_pairs[t].1.as_str()) {
                proof {
                    assert(raw.url_dup_timezone@[t as int].1 == tz_pairs@[t as int].1@);
                }
                return Err(ConfigError::BadTimezone(tz_pairs[t].1.clone()));
            }
            t = t + 1;
        }
        Ok(
            BotConfig {
                irc_log_dir: raw.irc_log_dir,
                channel: raw.channel,
                privileged_nicks: raw.privileged_nicks,
                url_regex: raw.url_regex,
                url_log_db: raw.url_log_db,
                url_blacklist: raw.url_blacklist,
                url_fetch_channels: raw.url_fetch_channels,
                url_cmd_channels: raw.url_cmd_channels,
                url_mut_channels: raw.url_mut_channels,
                url_log_channels: raw.url_log_channels,
                url_dup_complain_channels: raw.url_dup_complain_channels,
                url_dup_expire_days: raw.url_dup_expire_days,
                url_dup_timezone: raw.url_dup_timezone,
                cmd_dumpacl: raw.cmd_dumpacl,
                cmd_invite: raw.cmd_invite,
                cmd_join: raw.cmd_join,
                cmd_mode_o: raw.cmd_mode_o,
                cmd_mode_v: raw.cmd_mode_v,
                cmd_nick: raw.cmd_nick,
                cmd_reload: raw.cmd_reload,
                cmd_say: raw.cmd_say,
                mode_o_acl,
                auto_o_acl,
                url_re,
                url_cmd_list,
                url_mut_re,
            },
        )
    }
}

/// Reload idempotence law: two snapshots built from the same raw values
/// hold the same ACL rule lists, so they authorize any probe identity
/// identically — the same accept/reject decision, and the same matched rule
/// index when they accept.
pub proof fn lemma_reload_idempotent(
    c1: BotConfig,
    c2: BotConfig,
    raw: RawBotConfig,
    probe: Seq<char>,
)
    requires
        built_from(c1, raw),
        built_from(c2, raw),
    ensures
        c1.mode_o_acl@ == c2.mode_o_acl@,
        c1.auto_o_acl@ == c2.auto_o_acl@,
        forall|i: int|
            acl_match_at(c1.mode_o_acl@, probe, i) <==> acl_match_at(c2.mode_o_acl@, probe, i),
        acl_matches(c1.mode_o_acl@, probe) <==> acl_matches(c2.mode_o_acl@, probe),
        forall|i: int|
            acl_match_at(c1.auto_o_acl@, probe, i) <==> acl_match_at(c2.auto_o_acl@, probe, i),
        acl_matches(c1.auto_o_acl@, probe) <==> acl_matches(c2.auto_o_acl@, probe),
{
}

} // verus!
