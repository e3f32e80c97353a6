//! How Cassiopeia is invoked, and the commands a page documents for it.
use vstd::prelude::*;
use vstd::string::*;
use crate::command_line::{continuation, group_arguments, grouped, lemma_grouping_keeps_the_command, render, token_texts};
use crate::command_line_token::CommandLineToken;
use crate::container_image::ContainerImage;
use crate::container_network::{ContainerNetwork, network_text};
use crate::program_name::{ProgramName, program_text};
use crate::requirements::Requirements;
use crate::run::Run;
use crate::text::{concat, decimal, decimal_text, lemma_join_first, push_text, seq_join, texts};

verus! {

/// Where the container runs read and write the Smart Data Models catalog.
pub open spec fn container_schemas() -> Seq<char> {
    "/var/lib/cassiopeia/schemas"@
}

/// Where the example directory is mounted, and the working directory inside the container, so that
/// a relative path means the same thing in a container as it does on the host.
pub open spec fn container_workdir() -> Seq<char> {
    "/data"@
}

/// How Cassiopeia is invoked.
#[derive(Debug, Clone, Copy, PartialEq, Eq, Structural)]
pub enum Runtime {
    /// A binary on the host's `PATH`.
    Native,
    /// The published image, under Docker.
    Docker,
    /// The published image, under Podman.
    Podman,
}

/// The program a run of each kind invokes.
pub open spec fn program_of(runtime: Runtime) -> ProgramName {
    match runtime {
        Runtime::Native => ProgramName::Cassiopeia,
        Runtime::Docker => ProgramName::Docker,
        Runtime::Podman => ProgramName::Podman,
    }
}

/// The engine a broker's compose stack comes up under for each kind of run.
pub open spec fn compose_engine_of(runtime: Runtime) -> ProgramName {
    match runtime {
        Runtime::Native | Runtime::Docker => ProgramName::Docker,
        Runtime::Podman => ProgramName::Podman,
    }
}

impl Default for Runtime {
    /// A binary on the host's `PATH`, unless another runtime is asked for.
    fn default() -> (runtime: Self)
        ensures
            runtime == Runtime::Native,
    {
        Runtime::Native
    }
}

impl Runtime {
    /// The program a run of this kind invokes.
    pub fn program(self) -> (program: ProgramName)
        ensures
            program == program_of(self),
    {
        match self {
            Runtime::Native => ProgramName::Cassiopeia,
            Runtime::Docker => ProgramName::Docker,
            Runtime::Podman => ProgramName::Podman,
        }
    }

    /// The engine that brings a broker's compose stack up for a run of this kind.
    ///
    /// A native run has no engine of its own, and the compose file and the pages that use it both
    /// name Docker, so that is what a native run's broker comes up under.
    pub fn compose_engine(self) -> (engine: ProgramName)
        ensures
            engine == compose_engine_of(self),
    {
        match self {
            Runtime::Native | Runtime::Docker => ProgramName::Docker,
            Runtime::Podman => ProgramName::Podman,
        }
    }

    /// The runtime as the command line names it.
    pub fn to_string(&self) -> (text: String)
        ensures
            text@ == match self {
                Runtime::Native => "native"@,
                Runtime::Docker => "docker"@,
                Runtime::Podman => "podman"@,
            },
    {
        match self {
            Runtime::Native => "native".to_owned(),
            Runtime::Docker => "docker".to_owned(),
            Runtime::Podman => "podman".to_owned(),
        }
    }
}

/// A program and the arguments to start it with.
///
/// The arguments carry filesystem paths as the runner holds them.
#[derive(Debug)]
pub struct Invocation {
    /// The program to start.
    pub program: ProgramName,
    /// What to pass it.
    pub arguments: Vec<String>,
}

/// The lines of the host-binary form of a run: the subcommand sits beside the program on the
/// first line, and every other line is a flag with its value.
pub open spec fn native_lines_of(tokens: Seq<Seq<char>>) -> Seq<Seq<char>> {
    let lines = grouped(tokens);
    if lines.len() == 0 {
        seq![program_text(ProgramName::Cassiopeia)]
    } else {
        seq![program_text(ProgramName::Cassiopeia) + seq![' '] + lines[0]] + lines.drop_first()
    }
}

/// The lines of the Docker form of a run.
pub open spec fn container_lines_of(
    tokens: Seq<Seq<char>>,
    requirements: Requirements,
    network: ContainerNetwork,
    image: Seq<char>,
) -> Seq<Seq<char>> {
    seq!["docker run --rm"@, "--user \"$(id -u):$(id -g)\""@] + (if network == ContainerNetwork::Host {
        seq!["--network "@ + network_text(network)]
    } else {
        Seq::empty()
    }) + seq!["--volume \"$PWD:"@ + container_workdir() + "\""@] + (if requirements.smart_data_models {
        seq!["--volume \"$HOME/.cache/cassiopeia-examples/schemas:"@ + container_schemas() + "\""@]
    } else {
        Seq::empty()
    }) + seq!["--workdir "@ + container_workdir(), image] + grouped(tokens)
}

/// The text of an optional path.
pub open spec fn optional_text(path: Option<&str>) -> Option<Seq<char>> {
    match path {
        Some(path) => Some(path@),
        None => None,
    }
}

/// One `--volume` specification: a host path mounted at a container path.
pub open spec fn mount_of(host: Seq<char>, container: Seq<char>) -> Seq<char> {
    host + ":"@ + container
}

/// The `--user` value that maps a container's writes to one host identity.
pub open spec fn identity_of(uid: u32, gid: u32) -> Seq<char> {
    decimal(uid as nat) + ":"@ + decimal(gid as nat)
}

/// The arguments a run of one kind starts its program with.
pub open spec fn arguments_of(
    runtime: Runtime,
    directory: Seq<char>,
    tokens: Seq<Seq<char>>,
    schema_cache: Option<Seq<char>>,
    network: ContainerNetwork,
    image: Seq<char>,
    uid: u32,
    gid: u32,
) -> Seq<Seq<char>> {
    match runtime {
        Runtime::Native => tokens,
        Runtime::Docker | Runtime::Podman => {
            seq!["run"@, "--rm"@] + (if runtime == Runtime::Docker {
                seq!["--user"@, identity_of(uid, gid)]
            } else {
                Seq::empty()
            }) + (if network == ContainerNetwork::Host {
                seq!["--network"@, network_text(network)]
            } else {
                Seq::empty()
            }) + seq!["--volume"@, mount_of(directory, container_workdir())] + (match schema_cache {
                Some(cache) => seq!["--volume"@, mount_of(cache, container_schemas())],
                None => Seq::empty(),
            }) + seq!["--workdir"@, container_workdir(), image] + tokens
        },
    }
}

/// The command an example page documents for a host binary.
pub fn documented_native_command(run: &Run) -> (command: String)
    ensures
        command@ == seq_join(native_lines_of(token_texts(run.args@)), continuation()),
{
    render(&native_lines(run))
}

/// The lines of the host-binary form of a run.
pub fn native_lines(run: &Run) -> (lines: Vec<String>)
    ensures
        texts(lines@) == native_lines_of(token_texts(run.args@)),
{
    let grouped_lines = group_arguments(&run.args);
    let program = ProgramName::Cassiopeia.to_string();
    let mut lines: Vec<String> = Vec::new();
    if grouped_lines.len() == 0 {
        push_text(&mut lines, program.as_str());
        assert(texts(lines@) =~= native_lines_of(token_texts(run.args@)));
        return lines;
    }
    let first = crate::text::spaced(program.as_str(), grouped_lines[0].as_str());
    push_text(&mut lines, first.as_str());
    let mut i: usize = 1;
    while i < grouped_lines.len()
        invariant
            1 <= i <= grouped_lines.len(),
            texts(grouped_lines@) == grouped(token_texts(run.args@)),
            texts(lines@) == seq![program_text(ProgramName::Cassiopeia) + seq![' '] + texts(grouped_lines@)[0]] + texts(
                grouped_lines@,
            ).subrange(1, i as int),
        decreases grouped_lines.len() - i,
    {
        let ghost before = texts(lines@);
        push_text(&mut lines, grouped_lines[i].as_str());
        assert(texts(grouped_lines@).subrange(1, i + 1) =~= texts(grouped_lines@).subrange(1, i as int).push(
            texts(grouped_lines@)[i as int],
        ));
        i += 1;
    }
    assert(texts(grouped_lines@).subrange(1, grouped_lines.len() as int) =~= texts(grouped_lines@).drop_first());
    lines
}

/// The command an example page documents for Docker.
///
/// Podman differs only in the engine name and in dropping `--user`, which the page states in prose
/// rather than repeating the whole command.
pub fn documented_container_command(
    run: &Run,
    requirements: Requirements,
    network: ContainerNetwork,
    image: &ContainerImage,
) -> (command: String)
    ensures
        command@ == seq_join(container_lines_of(token_texts(run.args@), requirements, network, image@), continuation()),
{
    let mut lines: Vec<String> = Vec::new();
    push_text(&mut lines, "docker run --rm");
    push_text(&mut lines, "--user \"$(id -u):$(id -g)\"");
    match network {
        ContainerNetwork::Host => {
            let line = concat("--network ", network.to_string().as_str());
            push_text(&mut lines, line.as_str());
        },
        ContainerNetwork::Isolated => {},
    }
    push_text(&mut lines, "--volume \"$PWD:/data\"");
    if requirements.smart_data_models {
        push_text(&mut lines, "--volume \"$HOME/.cache/cassiopeia-examples/schemas:/var/lib/cassiopeia/schemas\"");
    }
    push_text(&mut lines, "--workdir /data");
    push_text(&mut lines, image.as_str());
    let ghost head = texts(lines@);
    let arguments = group_arguments(&run.args);
    let mut i: usize = 0;
    while i < arguments.len()
        invariant
            i <= arguments.len(),
            texts(lines@) == head + texts(arguments@).take(i as int),
        decreases arguments.len() - i,
    {
        push_text(&mut lines, arguments[i].as_str());
        assert(texts(arguments@).take(i + 1) =~= texts(arguments@).take(i as int).push(texts(arguments@)[i as int]));
        i += 1;
    }
    proof {
        reveal_strlit("--volume \"$PWD:/data\"");
        reveal_strlit("--volume \"$PWD:");
        reveal_strlit("\"");
        reveal_strlit("/data");
        reveal_strlit("--volume \"$HOME/.cache/cassiopeia-examples/schemas:/var/lib/cassiopeia/schemas\"");
        reveal_strlit("--volume \"$HOME/.cache/cassiopeia-examples/schemas:");
        reveal_strlit("/var/lib/cassiopeia/schemas");
        reveal_strlit("--workdir /data");
        reveal_strlit("--workdir ");
        assert("--volume \"$PWD:/data\""@ =~= "--volume \"$PWD:"@ + container_workdir() + "\""@);
        assert("--volume \"$HOME/.cache/cassiopeia-examples/schemas:/var/lib/cassiopeia/schemas\""@
            =~= "--volume \"$HOME/.cache/cassiopeia-examples/schemas:"@ + container_schemas() + "\""@);
        assert("--workdir /data"@ =~= "--workdir "@ + container_workdir());
        assert(texts(arguments@).take(arguments.len() as int) =~= texts(arguments@));
        assert(texts(lines@) =~= container_lines_of(token_texts(run.args@), requirements, network, image@));
    }
    render(&lines)
}

/// `rustix::process::getuid`: the real user id of the running process. It depends on who runs the
/// runner, so nothing is claimed of it.
#[verifier::external_body]
fn current_uid() -> u32 {
    rustix::process::getuid().as_raw()
}

/// `rustix::process::getgid`: the real group id of the running process. It depends on who runs
/// the runner, so nothing is claimed of it.
#[verifier::external_body]
fn current_gid() -> u32 {
    rustix::process::getgid().as_raw()
}

/// One `--volume` argument: a host path mounted at a container path.
pub fn mount(host: &str, container: &str) -> (specification: String)
    ensures
        specification@ == mount_of(host@, container@),
{
    let mut specification = host.to_owned();
    specification.append(":");
    specification.append(container);
    specification
}

/// The program and arguments to execute for a run, with the identity Docker maps the container's
/// writes to given as a user and a group id.
///
/// A schema cache is mounted only when one is given, which is how a run that needs the Smart Data
/// Models catalog differs from one that does not.
pub fn invocation_as(
    runtime: Runtime,
    directory: &str,
    arguments: &Vec<CommandLineToken>,
    schema_cache: Option<&str>,
    network: ContainerNetwork,
    image: &ContainerImage,
    uid: u32,
    gid: u32,
) -> (invocation: Invocation)
    ensures
        invocation.program == program_of(runtime),
        texts(invocation.arguments@) == arguments_of(
            runtime,
            directory@,
            token_texts(arguments@),
optional_text(schema_cache),
            network,
            image@,
            uid,
            gid,
        ),
{
    let program = runtime.program();
    let mut built: Vec<String> = Vec::new();
    match runtime {
        Runtime::Native => {},
        Runtime::Docker | Runtime::Podman => {
            push_text(&mut built, "run");
            push_text(&mut built, "--rm");
            // Rootless Podman already maps the container's root to the invoking user, so forcing an
            // identity there writes files nobody on the host owns. Docker needs it, otherwise the
            // output directory comes back owned by root.
            if runtime == Runtime::Docker {
                push_text(&mut built, "--user");
                let mut identity = decimal_text(uid as usize);
                identity.append(":");
                identity.append(decimal_text(gid as usize).as_str());
                push_text(&mut built, identity.as_str());
            }
            // A run that delivers to a broker reaches it at the same localhost URL its manifest
            // and its page name, which only holds when the container shares the host's network.
            match network {
                ContainerNetwork::Host => {
                    push_text(&mut built, "--network");
                    push_text(&mut built, network.to_string().as_str());
                },
                ContainerNetwork::Isolated => {},
            }
            push_text(&mut built, "--volume");
            push_text(&mut built, mount(directory, "/data").as_str());
            if let Some(cache) = schema_cache {
                push_text(&mut built, "--volume");
                push_text(&mut built, mount(cache, "/var/lib/cassiopeia/schemas").as_str());
            }
            push_text(&mut built, "--workdir");
            push_text(&mut built, "/data");
            push_text(&mut built, image.as_str());
        },
    }
    let ghost head = texts(built@);
    let mut i: usize = 0;
    while i < arguments.len()
        invariant
            i <= arguments.len(),
            texts(built@) == head + token_texts(arguments@).take(i as int),
        decreases arguments.len() - i,
    {
        push_text(&mut built, arguments[i].as_str());
        assert(token_texts(arguments@).take(i + 1) =~= token_texts(arguments@).take(i as int).push(
            token_texts(arguments@)[i as int],
        ));
        i += 1;
    }
    assert(token_texts(arguments@).take(arguments.len() as int) =~= token_texts(arguments@));
    assert(texts(built@) =~= arguments_of(
        runtime,
        directory@,
        token_texts(arguments@),
optional_text(schema_cache),
        network,
        image@,
        uid,
        gid,
    ));
    Invocation { program, arguments: built }
}

/// The program and arguments to execute for a run, with real values where the documented form
/// carries shell expansions: a Docker run maps the container's writes to the user and group that
/// run the runner.
pub fn invocation(
    runtime: Runtime,
    directory: &str,
    arguments: &Vec<CommandLineToken>,
    schema_cache: Option<&str>,
    network: ContainerNetwork,
    image: &ContainerImage,
) -> (invocation: Invocation)
    ensures
        invocation.program == program_of(runtime),
        exists|uid: u32, gid: u32|
            texts(invocation.arguments@) == #[trigger] arguments_of(
                runtime,
                directory@,
                token_texts(arguments@),
optional_text(schema_cache),
                network,
                image@,
                uid,
                gid,
            ),
{
    let (uid, gid) = if runtime == Runtime::Docker {
        (current_uid(), current_gid())
    } else {
        (0, 0)
    };
    invocation_as(runtime, directory, arguments, schema_cache, network, image, uid, gid)
}

/// The command a page documents for a host binary is the command the runner executes: read with
/// each line continuation as the space a shell reads it as, the page's lines are the program the
/// runner starts followed by the arguments it passes, one space apart.
pub proof fn lemma_documented_native_command_is_the_invocation(
    tokens: Seq<Seq<char>>,
    directory: Seq<char>,
    schema_cache: Option<Seq<char>>,
    network: ContainerNetwork,
    image: Seq<char>,
    uid: u32,
    gid: u32,
)
    ensures
        seq_join(native_lines_of(tokens), seq![' ']) == seq_join(
            seq![program_text(program_of(Runtime::Native))] + arguments_of(
                Runtime::Native,
                directory,
                tokens,
                schema_cache,
                network,
                image,
                uid,
                gid,
            ),
            seq![' '],
        ),
{
    let space = seq![' '];
    let program = program_text(ProgramName::Cassiopeia);
    let lines = grouped(tokens);
    lemma_grouping_keeps_the_command(tokens);
    lemma_join_first(program, tokens, space);
    if lines.len() == 0 {
        assert(native_lines_of(tokens) =~= seq![program]);
    } else {
        let rest = lines.drop_first();
        assert(lines =~= seq![lines[0]] + rest);
        lemma_join_first(lines[0], rest, space);
        lemma_join_first(program + space + lines[0], rest, space);
        if rest.len() > 0 {
            assert(program + space + lines[0] + space + seq_join(rest, space) =~= program + space + (lines[0] + space
                + seq_join(rest, space)));
        }
    }
}

/// A container run works where the example is mounted: its arguments mount the example directory
/// at `/data` and make `/data` the working directory, immediately before the image and the
/// Cassiopeia arguments, so that a relative path in the run means in the container what it means in
/// the example directory. The page documents the same working directory.
pub proof fn lemma_a_container_run_works_in_the_mounted_example(
    runtime: Runtime,
    directory: Seq<char>,
    tokens: Seq<Seq<char>>,
    schema_cache: Option<Seq<char>>,
    requirements: Requirements,
    network: ContainerNetwork,
    image: Seq<char>,
    uid: u32,
    gid: u32,
)
    requires
        runtime != Runtime::Native,
    ensures
        ({
            let arguments = arguments_of(runtime, directory, tokens, schema_cache, network, image, uid, gid);
            &&& arguments.len() >= tokens.len() + 7
            &&& arguments.skip(arguments.len() - tokens.len() - 3) == seq!["--workdir"@, "/data"@, image] + tokens
            &&& exists|k: int|
                0 <= k && k + 1 < arguments.len() && arguments[k] == "--volume"@ && #[trigger] arguments[k + 1]
                    == directory + ":/data"@
        }),
        container_lines_of(tokens, requirements, network, image).contains("--workdir /data"@),
{
    reveal_strlit("/data");
    reveal_strlit("--workdir ");
    reveal_strlit("--workdir /data");
    reveal_strlit(":");
    reveal_strlit(":/data");
    let arguments = arguments_of(runtime, directory, tokens, schema_cache, network, image, uid, gid);
    let user: Seq<Seq<char>> = if runtime == Runtime::Docker {
        seq!["--user"@, identity_of(uid, gid)]
    } else {
        Seq::empty()
    };
    let host: Seq<Seq<char>> = if network == ContainerNetwork::Host {
        seq!["--network"@, network_text(network)]
    } else {
        Seq::empty()
    };
    let cache: Seq<Seq<char>> = match schema_cache {
        Some(cache) => seq!["--volume"@, mount_of(cache, container_schemas())],
        None => Seq::empty(),
    };
    let start = seq!["run"@, "--rm"@] + user + host;
    let tail = seq!["--workdir"@, container_workdir(), image] + tokens;
    assert(arguments =~= start + seq!["--volume"@, mount_of(directory, container_workdir())] + cache + tail);
    assert(container_workdir() =~= "/data"@);
    assert(mount_of(directory, container_workdir()) =~= directory + ":/data"@);
    let k = start.len() as int;
    assert(arguments[k] == "--volume"@);
    assert(arguments[k + 1] == directory + ":/data"@);
    assert(arguments.skip(arguments.len() - tokens.len() - 3) =~= tail);
    let lines = container_lines_of(tokens, requirements, network, image);
    let before: Seq<Seq<char>> = seq!["docker run --rm"@, "--user \"$(id -u):$(id -g)\""@] + (if network
        == ContainerNetwork::Host {
        seq!["--network "@ + network_text(network)]
    } else {
        Seq::empty()
    }) + seq!["--volume \"$PWD:"@ + container_workdir() + "\""@] + (if requirements.smart_data_models {
        seq!["--volume \"$HOME/.cache/cassiopeia-examples/schemas:"@ + container_schemas() + "\""@]
    } else {
        Seq::empty()
    });
    assert(lines =~= before + seq!["--workdir "@ + container_workdir(), image] + grouped(tokens));
    assert("--workdir "@ + container_workdir() =~= "--workdir /data"@);
    assert(lines[before.len() as int] == "--workdir /data"@);
}

} // verus!
