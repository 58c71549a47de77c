use vstd::prelude::*;
use crate::text::{decimal, decimal_text, split_ascii_words, split_words, texts};

verus! {

/// Everything needed to run one submitted program in the sandbox.
pub struct NSJailBlueprint {
    /// Root of the fixtures, laid out as `<tests>/<assignment>/<test>/`.
    pub tests: String,
    /// Address-space ceiling handed to the sandbox.
    pub memory_limit: i64,
    /// Wall-clock ceiling in seconds, enforced by the sandbox itself.
    pub time_limit: i64,
    /// CPU core ceiling.
    pub max_cpus: i64,
    /// Whether the program is kept off the network.
    pub disable_network: bool,
    /// The submission's own directory, mounted read-only as the working directory.
    pub mountpoint: String,
    /// The program to run, as words separated by ASCII whitespace.
    pub command: String,
    /// Whether the program is fed the stdin fixture.
    pub write_stdin: bool,
    /// Whether the sandbox keeps its own log quiet.
    pub quiet: bool,
}

/// A process to start: its program, its arguments, and whether its standard
/// input is a pipe. Standard output and standard error are always piped.
pub struct SandboxCommand {
    pub program: String,
    pub args: Vec<String>,
    pub pipe_stdin: bool,
}

/// The fixed sandbox policy: run once, chrooted at `/`, working in
/// `/workspace`, with a private `/tmp` and no new user namespace.
pub open spec fn policy_args() -> Seq<Seq<char>> {
    seq![
        "nsjail"@,
        "--mode"@,
        "o"@,
        "--chroot"@,
        "/"@,
        "--cwd"@,
        "/workspace"@,
        "--tmpfsmount"@,
        "/tmp"@,
        "--disable_clone_newuser"@,
    ]
}

/// The arguments handed to `sudo` for a blueprint: the policy, the limits,
/// the read-only mount of the submission at `/workspace`, the network and
/// quiet flags, then `--` and the words of the command. The network
/// namespace is cloned (the program has no network) unless network is allowed.
pub open spec fn sandbox_args(
    memory_limit: i64,
    time_limit: i64,
    max_cpus: i64,
    disable_network: bool,
    mountpoint: Seq<char>,
    command: Seq<char>,
    quiet: bool,
) -> Seq<Seq<char>> {
    policy_args() + seq![
        "--rlimit_as"@,
        decimal(memory_limit as int),
        "--time_limit"@,
        decimal(time_limit as int),
        "--max_cpus"@,
        decimal(max_cpus as int),
        "--bindmount_ro"@,
        mountpoint + ":/workspace"@,
    ] + (if disable_network {
        seq![]
    } else {
        seq!["--disable_clone_newnet"@]
    }) + (if quiet {
        seq!["--quiet"@]
    } else {
        seq![]
    }) + seq!["--"@] + split_words(command)
}

impl NSJailBlueprint {
    pub open spec fn spec_args(&self) -> Seq<Seq<char>> {
        sandbox_args(
            self.memory_limit,
            self.time_limit,
            self.max_cpus,
            self.disable_network,
            self.mountpoint@,
            self.command@,
            self.quiet,
        )
    }

    /// The sandbox invocation for this blueprint: `sudo` with the arguments
    /// of `sandbox_args`, stdin piped when the program is to be fed.
    pub fn into_command(self) -> (r: SandboxCommand)
        ensures
            r.program@ == "sudo"@,
            texts(r.args@) == self.spec_args(),
            r.pipe_stdin == self.write_stdin,
    {
        let mut args: Vec<String> = Vec::new();
        args.push(String::from_str("nsjail"));
        args.push(String::from_str("--mode"));
        args.push(String::from_str("o"));
        args.push(String::from_str("--chroot"));
        args.push(String::from_str("/"));
        args.push(String::from_str("--cwd"));
        args.push(String::from_str("/workspace"));
        args.push(String::from_str("--tmpfsmount"));
        args.push(String::from_str("/tmp"));
        args.push(String::from_str("--disable_clone_newuser"));
        assert(texts(args@) =~= policy_args());
        args.push(String::from_str("--rlimit_as"));
        args.push(decimal_text(self.memory_limit));
        args.push(String::from_str("--time_limit"));
        args.push(decimal_text(self.time_limit));
        args.push(String::from_str("--max_cpus"));
        args.push(decimal_text(self.max_cpus));
        args.push(String::from_str("--bindmount_ro"));
        args.push(String::from_str(self.mountpoint.as_str()).concat(":/workspace"));
        let ghost fixed = texts(args@);
        if !self.disable_network {
            args.push(String::from_str("--disable_clone_newnet"));
        }
        let ghost with_net = texts(args@);
        if self.quiet {
            args.push(String::from_str("--quiet"));
        }
        let ghost with_quiet = texts(args@);
        args.push(String::from_str("--"));
        let words = split_ascii_words(self.command.as_str());
        let ghost before = args@;
        let mut k: usize = 0;
        while k < words.len()
            invariant
                k <= words@.len(),
                args@ == before + words@.subrange(0, k as int),
            decreases words@.len() - k,
        {
            args.push(words[k].clone());
            assert(args@ =~= before + words@.subrange(0, k + 1));
            k = k + 1;
        }
        proof {
            assert(words@.subrange(0, words@.len() as int) =~= words@);
            assert(with_net =~= fixed + (if self.disable_network {
                seq![]
            } else {
                seq!["--disable_clone_newnet"@]
            }));
            assert(with_quiet =~= with_net + (if self.quiet {
                seq!["--quiet"@]
            } else {
                seq![]
            }));
            assert(texts(args@) =~= with_quiet + seq!["--"@] + texts(words@));
            assert(texts(args@) =~= self.spec_args());
        }
        SandboxCommand { program: String::from_str("sudo"), args, pipe_stdin: self.write_stdin }
    }
}

/// One sandboxed run waiting to be started.
pub struct Instance {
    blueprint: NSJailBlueprint,
}

impl Instance {
    pub closed spec fn spec_blueprint(&self) -> &NSJailBlueprint {
        &self.blueprint
    }

    pub fn new(blueprint: NSJailBlueprint) -> (r: Instance)
        ensures
            r.spec_blueprint() == blueprint,
    {
        Instance { blueprint }
    }

    pub fn into_blueprint(self) -> (r: NSJailBlueprint)
        ensures
            r == self.spec_blueprint(),
    {
        self.blueprint
    }
}

} // verus!
