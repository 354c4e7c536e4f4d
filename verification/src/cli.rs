//! Run parameters and their validation.

use vstd::prelude::*;
use vstd::string::*;

verus! {

/// The command-line parameters of a run, as plain values.
#[derive(Debug)]
pub struct Cli {
    pub url: Option<String>,
    pub file: Option<String>,
    pub unified_file: Option<String>,
    pub user_agent: Option<String>,
    pub base_url: Option<String>,
    pub cookie: Option<String>,
    pub domain: Option<String>,
    pub config: Option<String>,
    pub mode: u8,
    pub max_count: Option<usize>,
    pub output: Option<String>,
    pub status: Option<String>,
    pub threads: usize,
    pub timeout: u64,
    pub proxy: Option<String>,
    pub fuzz: Option<u8>,
}

/// Why the run parameters are unusable.
#[derive(Debug, Clone, Copy, PartialEq, Eq, Structural)]
pub enum CliError {
    /// Neither a target URL nor a URL file was given.
    MissingTarget,
    /// The extraction mode is outside 1 through 3.
    BadMode,
    /// The fuzz mode is outside 1 through 3.
    BadFuzzMode,
}

/// An element-wise copy of an optional string, with the same view.
pub fn clone_opt_string(v: &Option<String>) -> (r: Option<String>)
    ensures
        r.deep_view() == v.deep_view(),
{
    match v {
        Some(s) => Some(s.clone()),
        None => None,
    }
}

/// No target was given at all: no single URL and no URL file.
pub open spec fn spec_missing_target(cli: &Cli) -> bool {
    cli.url is None && cli.file is None && cli.unified_file is None
}

/// The mode is outside the accepted range.
pub open spec fn spec_bad_mode(cli: &Cli) -> bool {
    !(1 <= cli.mode && cli.mode <= 3)
}

/// A fuzz mode was given and is outside the accepted range.
pub open spec fn spec_bad_fuzz_mode(cli: &Cli) -> bool {
    match cli.fuzz {
        Some(f) => !(1 <= f && f <= 3),
        None => false,
    }
}

/// Validates and hands out the run parameters.
pub struct CliRunner {
    cli: Cli,
}

impl CliRunner {
    /// The parameters this runner holds.
    pub closed spec fn spec_cli(&self) -> &Cli {
        &self.cli
    }

    /// Wraps parsed parameters.
    pub fn new(cli: Cli) -> (r: CliRunner)
        ensures
            *r.spec_cli() == cli,
    {
        CliRunner { cli }
    }

    /// Checks the parameters, in order: some target must be given, the mode
    /// must be 1 through 3, and a fuzz mode, when given, must be 1 through 3.
    pub fn validate(&self) -> (r: Result<(), CliError>)
        ensures
            r is Ok <==> !spec_missing_target(self.spec_cli()) && !spec_bad_mode(self.spec_cli())
                && !spec_bad_fuzz_mode(self.spec_cli()),
            r == Err::<(), CliError>(CliError::MissingTarget) <==> spec_missing_target(
                self.spec_cli(),
            ),
            r == Err::<(), CliError>(CliError::BadMode) <==> !spec_missing_target(self.spec_cli())
                && spec_bad_mode(self.spec_cli()),
            r == Err::<(), CliError>(CliError::BadFuzzMode) <==> !spec_missing_target(
                self.spec_cli(),
            ) && !spec_bad_mode(self.spec_cli()) && spec_bad_fuzz_mode(self.spec_cli()),
    {
        if self.cli.url.is_none() && self.cli.file.is_none() && self.cli.unified_file.is_none() {
            return Err(CliError::MissingTarget);
        }
        if !(1 <= self.cli.mode && self.cli.mode <= 3) {
            return Err(CliError::BadMode);
        }
        match self.cli.fuzz {
            Some(f) => {
                if !(1 <= f && f <= 3) {
                    return Err(CliError::BadFuzzMode);
                }
            },
            None => {},
        }
        Ok(())
    }

    /// The URLs a run starts from: the single target, if given, followed by
    /// the lines of the URL files, in order.
    pub fn assemble_urls(&self, file_lines: &Vec<String>, unified_lines: &Vec<String>) -> (r: Vec<
        String,
    >)
        ensures
            r.deep_view() == (match self.spec_cli().url {
                Some(u) => seq![u@],
                None => Seq::<Seq<char>>::empty(),
            }) + file_lines.deep_view() + unified_lines.deep_view(),
    {
        let mut out: Vec<String> = Vec::new();
        match &self.cli.url {
            Some(u) => {
                out.push(u.clone());
            },
            None => {},
        }
        let ghost head = out.deep_view();
        let mut rest = crate::crawler::clone_vec_string(file_lines);
        out.append(&mut rest);
        proof {
            assert(out.deep_view() =~= head + file_lines.deep_view());
        }
        let mut rest2 = crate::crawler::clone_vec_string(unified_lines);
        out.append(&mut rest2);
        proof {
            assert(out.deep_view() =~= head + file_lines.deep_view() + unified_lines.deep_view());
            assert(head =~= (match self.spec_cli().url {
                Some(u) => seq![u@],
                None => Seq::<Seq<char>>::empty(),
            }));
        }
        out
    }

    /// The configuration file path, if given.
    pub fn get_config_path(&self) -> (r: Option<String>)
        ensures
            r.deep_view() == self.spec_cli().config.deep_view(),
    {
        clone_opt_string(&self.cli.config)
    }

    /// The output directory path, if given.
    pub fn get_output_path(&self) -> (r: Option<String>)
        ensures
            r.deep_view() == self.spec_cli().output.deep_view(),
    {
        clone_opt_string(&self.cli.output)
    }

    /// The concurrency budget.
    pub fn get_threads(&self) -> (r: usize)
        ensures
            r == self.spec_cli().threads,
    {
        self.cli.threads
    }

    /// The per-request timeout, in seconds.
    pub fn get_timeout(&self) -> (r: u64)
        ensures
            r == self.spec_cli().timeout,
    {
        self.cli.timeout
    }

    /// The extraction mode.
    pub fn get_mode(&self) -> (r: u8)
        ensures
            r == self.spec_cli().mode,
    {
        self.cli.mode
    }

    /// The discovery quota, if given.
    pub fn get_max_count(&self) -> (r: Option<usize>)
        ensures
            r == self.spec_cli().max_count,
    {
        self.cli.max_count
    }

    /// The status filter string, if given.
    pub fn get_status_filter(&self) -> (r: Option<String>)
        ensures
            r.deep_view() == self.spec_cli().status.deep_view(),
    {
        clone_opt_string(&self.cli.status)
    }

    /// The domain filter pattern, if given.
    pub fn get_domain_filter(&self) -> (r: Option<String>)
        ensures
            r.deep_view() == self.spec_cli().domain.deep_view(),
    {
        clone_opt_string(&self.cli.domain)
    }

    /// The base-URL override, if given.
    pub fn get_base_url(&self) -> (r: Option<String>)
        ensures
            r.deep_view() == self.spec_cli().base_url.deep_view(),
    {
        clone_opt_string(&self.cli.base_url)
    }

    /// The User-Agent override, if given.
    pub fn get_user_agent(&self) -> (r: Option<String>)
        ensures
            r.deep_view() == self.spec_cli().user_agent.deep_view(),
    {
        clone_opt_string(&self.cli.user_agent)
    }

    /// The Cookie header, if given.
    pub fn get_cookie(&self) -> (r: Option<String>)
        ensures
            r.deep_view() == self.spec_cli().cookie.deep_view(),
    {
        clone_opt_string(&self.cli.cookie)
    }

    /// The upstream proxy, if given.
    pub fn get_proxy(&self) -> (r: Option<String>)
        ensures
            r.deep_view() == self.spec_cli().proxy.deep_view(),
    {
        clone_opt_string(&self.cli.proxy)
    }

    /// The fuzz mode, if given.
    pub fn get_fuzz_mode(&self) -> (r: Option<u8>)
        ensures
            r == self.spec_cli().fuzz,
    {
        self.cli.fuzz
    }
}

} // verus!
