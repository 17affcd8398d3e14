//! The orchestration supervisor: its status value, event stream, rolling log
//! buffer, container inventory, and the decision of every lifecycle step as a
//! verified transition from state and outcome to new state and events.
//!
//! Spawning the engine process, reading its pipes and waiting for it are left
//! to the caller; each transition here says exactly which command to run, how
//! the shared state changes and which events are emitted.

use vstd::prelude::*;

use crate::config::{enabled_keys, ProjectConfig};
use crate::strutil::{
    concat2, concat3, concat4, split_all, split_char, strip_cr, strip_trailing_cr, trim, trim_spec,
};

verus! {

broadcast use vstd::prelude::Seq::group_seq_extra;

/// The lifecycle status of a project's service stack.
#[derive(Debug)]
pub enum ServiceStatus {
    Stopped,
    Starting,
    Running,
    Stopping,
    Error(String),
}

/// The mathematical image of a `ServiceStatus`.
pub enum ServiceStatusView {
    Stopped,
    Starting,
    Running,
    Stopping,
    Error(Seq<char>),
}

impl View for ServiceStatus {
    type V = ServiceStatusView;

    open spec fn view(&self) -> ServiceStatusView {
        match self {
            ServiceStatus::Stopped => ServiceStatusView::Stopped,
            ServiceStatus::Starting => ServiceStatusView::Starting,
            ServiceStatus::Running => ServiceStatusView::Running,
            ServiceStatus::Stopping => ServiceStatusView::Stopping,
            ServiceStatus::Error(m) => ServiceStatusView::Error(m@),
        }
    }
}

impl Clone for ServiceStatus {
    fn clone(&self) -> (r: Self)
        ensures
            r@ == self@,
    {
        match self {
            ServiceStatus::Stopped => ServiceStatus::Stopped,
            ServiceStatus::Starting => ServiceStatus::Starting,
            ServiceStatus::Running => ServiceStatus::Running,
            ServiceStatus::Stopping => ServiceStatus::Stopping,
            ServiceStatus::Error(m) => ServiceStatus::Error(m.clone()),
        }
    }
}

impl PartialEq for ServiceStatus {
    fn eq(&self, other: &Self) -> (r: bool) {
        match (self, other) {
            (ServiceStatus::Stopped, ServiceStatus::Stopped) => true,
            (ServiceStatus::Starting, ServiceStatus::Starting) => true,
            (ServiceStatus::Running, ServiceStatus::Running) => true,
            (ServiceStatus::Stopping, ServiceStatus::Stopping) => true,
            (ServiceStatus::Error(a), ServiceStatus::Error(b)) => crate::strutil::str_eq(
                a.as_str(),
                b.as_str(),
            ),
            _ => false,
        }
    }
}

impl vstd::std_specs::cmp::PartialEqSpecImpl for ServiceStatus {
    open spec fn obeys_eq_spec() -> bool {
        true
    }

    open spec fn eq_spec(&self, other: &Self) -> bool {
        self@ == other@
    }
}

/// One engine-reported container, as parsed from an inventory line.
#[derive(Debug)]
pub struct ContainerInfo {
    pub id: String,
    pub name: String,
    pub image: String,
    pub status: String,
    pub ports: String,
    pub state: String,
}

/// The mathematical image of a `ContainerInfo`.
#[verifier::ext_equal]
pub struct ContainerInfoView {
    pub id: Seq<char>,
    pub name: Seq<char>,
    pub image: Seq<char>,
    pub status: Seq<char>,
    pub ports: Seq<char>,
    pub state: Seq<char>,
}

impl View for ContainerInfo {
    type V = ContainerInfoView;

    open spec fn view(&self) -> ContainerInfoView {
        ContainerInfoView {
            id: self.id@,
            name: self.name@,
            image: self.image@,
            status: self.status@,
            ports: self.ports@,
            state: self.state@,
        }
    }
}

impl Clone for ContainerInfo {
    fn clone(&self) -> (r: Self)
        ensures
            r@ == self@,
    {
        ContainerInfo {
            id: self.id.clone(),
            name: self.name.clone(),
            image: self.image.clone(),
            status: self.status.clone(),
            ports: self.ports.clone(),
            state: self.state.clone(),
        }
    }
}

/// One observable occurrence of the supervisor, delivered to subscribers.
#[derive(Debug)]
pub enum DockerEvent {
    Log(String),
    StatusChange(String, ServiceStatus),
    ContainerList(Vec<ContainerInfo>),
    Error(String),
    DockerAvailable(bool),
}

/// The mathematical image of a `DockerEvent`.
pub enum DockerEventView {
    Log(Seq<char>),
    StatusChange(Seq<char>, ServiceStatusView),
    ContainerList(Seq<ContainerInfoView>),
    Error(Seq<char>),
    DockerAvailable(bool),
}

impl View for DockerEvent {
    type V = DockerEventView;

    open spec fn view(&self) -> DockerEventView {
        match self {
            DockerEvent::Log(m) => DockerEventView::Log(m@),
            DockerEvent::StatusChange(sc, st) => DockerEventView::StatusChange(sc@, st@),
            DockerEvent::ContainerList(l) => DockerEventView::ContainerList(
                l@.map_values(|c: ContainerInfo| c@),
            ),
            DockerEvent::Error(m) => DockerEventView::Error(m@),
            DockerEvent::DockerAvailable(b) => DockerEventView::DockerAvailable(*b),
        }
    }
}

impl Clone for DockerEvent {
    fn clone(&self) -> (r: Self)
        ensures
            r@ == self@,
    {
        match self {
            DockerEvent::Log(m) => DockerEvent::Log(m.clone()),
            DockerEvent::StatusChange(sc, st) => DockerEvent::StatusChange(sc.clone(), st.clone()),
            DockerEvent::ContainerList(l) => DockerEvent::ContainerList(clone_containers(l)),
            DockerEvent::Error(m) => DockerEvent::Error(m.clone()),
            DockerEvent::DockerAvailable(b) => DockerEvent::DockerAvailable(*b),
        }
    }
}

/// Copies a container list field by field.
pub fn clone_containers(l: &Vec<ContainerInfo>) -> (r: Vec<ContainerInfo>)
    ensures
        r@.map_values(|c: ContainerInfo| c@) == l@.map_values(|c: ContainerInfo| c@),
{
    let mut out: Vec<ContainerInfo> = Vec::new();
    let mut i: usize = 0;
    while i < l.len()
        invariant
            i <= l.len(),
            out@.map_values(|c: ContainerInfo| c@) == l@.take(i as int).map_values(
                |c: ContainerInfo| c@,
            ),
        decreases l.len() - i,
    {
        out.push(l[i].clone());
        i = i + 1;
    }
    proof {
        assert(l@.take(l@.len() as int) =~= l@);
    }
    out
}

/// A rolling line buffer with a high-water mark and a low-water mark: one
/// append never leaves it above the high mark, and an append that finds it at
/// or above the high mark trims it to the low mark in one batch.
#[derive(Debug)]
pub struct RollingBuffer {
    pub entries: Vec<String>,
    pub high: usize,
    pub low: usize,
}

impl View for RollingBuffer {
    type V = Seq<Seq<char>>;

    open spec fn view(&self) -> Seq<Seq<char>> {
        self.entries@.map_values(|s: String| s@)
    }
}

/// What one append leaves in a rolling buffer.
pub open spec fn rolling_append(s: Seq<Seq<char>>, line: Seq<char>, high: int, low: int) -> Seq<
    Seq<char>,
> {
    let t = s.push(line);
    if t.len() > high {
        t.skip(t.len() - low)
    } else {
        t
    }
}

impl RollingBuffer {
    /// The marks are ordered and the buffer is within them.
    pub open spec fn wf(&self) -> bool {
        self.low <= self.high && self@.len() <= self.high
    }

    /// An empty buffer with the given marks.
    pub fn new(high: usize, low: usize) -> (r: RollingBuffer)
        requires
            low <= high,
        ensures
            r.wf(),
            r@ == Seq::<Seq<char>>::empty(),
            r.high == high,
            r.low == low,
    {
        let r = RollingBuffer { entries: Vec::new(), high, low };
        proof {
            assert(r@ =~= Seq::<Seq<char>>::empty());
        }
        r
    }

    /// How many lines the buffer holds.
    pub fn len(&self) -> (r: usize)
        ensures
            r == self@.len(),
    {
        self.entries.len()
    }

    /// The line at an index.
    pub fn line_at(&self, i: usize) -> (r: &String)
        requires
            i < self@.len(),
        ensures
            r@ == self@[i as int],
    {
        &self.entries[i]
    }

    /// Appends one line; trims the oldest lines down to the low mark in one
    /// batch when the buffer had reached the high mark.
    pub fn append(&mut self, line: String)
        requires
            old(self).wf(),
        ensures
            final(self).wf(),
            final(self).high == old(self).high,
            final(self).low == old(self).low,
            final(self)@ == rolling_append(
                old(self)@,
                line@,
                old(self).high as int,
                old(self).low as int,
            ),
            final(self)@.len() <= old(self).high,
            old(self)@.len() >= old(self).high && old(self).high > 0 ==> final(self)@.len()
                == old(self).low,
    {
        self.entries.push(line);
        if self.entries.len() > self.high {
            let start = self.entries.len() - self.low;
            let mut kept: Vec<String> = Vec::new();
            let mut i: usize = start;
            while i < self.entries.len()
                invariant
                    start <= i <= self.entries@.len(),
                    kept@.map_values(|s: String| s@) == self.entries@.subrange(
                        start as int,
                        i as int,
                    ).map_values(|s: String| s@),
                decreases self.entries.len() - i,
            {
                kept.push(self.entries[i].clone());
                proof {
                    assert(self.entries@.subrange(start as int, i + 1 as int)
                        =~= self.entries@.subrange(start as int, i as int).push(
                        self.entries@[i as int],
                    ));
                }
                i = i + 1;
            }
            proof {
                assert(kept@.map_values(|s: String| s@) =~= self.entries@.map_values(
                    |s: String| s@,
                ).skip(start as int));
            }
            self.entries = kept;
        }
    }

    /// Removes every line.
    pub fn clear(&mut self)
        requires
            old(self).wf(),
        ensures
            final(self).wf(),
            final(self)@ == Seq::<Seq<char>>::empty(),
            final(self).high == old(self).high,
            final(self).low == old(self).low,
    {
        self.entries = Vec::new();
        proof {
            assert(self@ =~= Seq::<Seq<char>>::empty());
        }
    }
}

/// Lines the supervisor's log buffer keeps at most.
pub const LOG_HIGH_WATER: usize = 5000;

/// Lines one trimming batch leaves in the log buffer.
pub const LOG_LOW_WATER: usize = 3000;

/// An external engine invocation: the program and its argument vector.
#[derive(Debug)]
pub struct EngineCommand {
    pub program: String,
    pub args: Vec<String>,
}

/// The mathematical image of an `EngineCommand`.
#[verifier::ext_equal]
pub struct EngineCommandView {
    pub program: Seq<char>,
    pub args: Seq<Seq<char>>,
}

impl View for EngineCommand {
    type V = EngineCommandView;

    open spec fn view(&self) -> EngineCommandView {
        EngineCommandView {
            program: self.program@,
            args: self.args@.map_values(|a: String| a@),
        }
    }
}

/// The lifecycle operations driven through the compose dialect.
#[derive(Debug, Clone, Copy, PartialEq, Eq, Structural)]
pub enum ComposeAction {
    Up,
    Down,
    Logs,
}

/// The program of the compose dialect: the engine itself when the plugin
/// subcommand is available, else the standalone binary.
pub open spec fn compose_program(use_plugin: bool) -> Seq<char> {
    if use_plugin {
        "docker"@
    } else {
        "docker-compose"@
    }
}

/// The argument vector of one compose action under one dialect.
pub open spec fn compose_args(use_plugin: bool, action: ComposeAction) -> Seq<Seq<char>> {
    let tail = match action {
        ComposeAction::Up => seq!["up"@, "-d"@, "--remove-orphans"@],
        ComposeAction::Down => seq!["down"@],
        ComposeAction::Logs => seq!["logs"@, "-f"@, "--tail"@, "100"@],
    };
    if use_plugin {
        seq!["compose"@] + tail
    } else {
        tail
    }
}

/// The exact command that realizes a compose action under the detected
/// dialect.
pub fn compose_command(use_plugin: bool, action: ComposeAction) -> (c: EngineCommand)
    ensures
        c@.program == compose_program(use_plugin),
        c@.args == compose_args(use_plugin, action),
{
    let program = if use_plugin {
        "docker".to_owned()
    } else {
        "docker-compose".to_owned()
    };
    let mut args: Vec<String> = Vec::new();
    if use_plugin {
        args.push("compose".to_owned());
    }
    match action {
        ComposeAction::Up => {
            args.push("up".to_owned());
            args.push("-d".to_owned());
            args.push("--remove-orphans".to_owned());
        },
        ComposeAction::Down => {
            args.push("down".to_owned());
        },
        ComposeAction::Logs => {
            args.push("logs".to_owned());
            args.push("-f".to_owned());
            args.push("--tail".to_owned());
            args.push("100".to_owned());
        },
    }
    let c = EngineCommand { program, args };
    proof {
        assert(c@.args =~= compose_args(use_plugin, action));
    }
    c
}

/// The label every container of the project carries.
pub open spec fn project_label(project_id: Seq<char>) -> Seq<char> {
    "label=com.docker.compose.project="@ + project_id
}

/// The field layout the inventory listing asks the engine for.
pub open spec fn inventory_format() -> Seq<char> {
    "{{.ID}}|{{.Names}}|{{.Image}}|{{.Status}}|{{.Ports}}|{{.State}}"@
}

/// The exact command that lists the project's containers, filtered by the
/// project-scoped label.
pub fn ps_command(project_id: &str) -> (c: EngineCommand)
    ensures
        c@.program == "docker"@,
        c@.args == seq![
            "ps"@,
            "-a"@,
            "--filter"@,
            project_label(project_id@),
            "--format"@,
            inventory_format(),
        ],
{
    let mut args: Vec<String> = Vec::new();
    args.push("ps".to_owned());
    args.push("-a".to_owned());
    args.push("--filter".to_owned());
    args.push(concat2("label=com.docker.compose.project=", project_id));
    args.push("--format".to_owned());
    args.push("{{.ID}}|{{.Names}}|{{.Image}}|{{.Status}}|{{.Ports}}|{{.State}}".to_owned());
    let c = EngineCommand { program: "docker".to_owned(), args };
    proof {
        assert(c@.args =~= seq![
            "ps"@,
            "-a"@,
            "--filter"@,
            project_label(project_id@),
            "--format"@,
            inventory_format(),
        ]);
    }
    c
}

/// The exact command that asks the engine whether it is reachable.
pub fn engine_info_command() -> (c: EngineCommand)
    ensures
        c@.program == "docker"@,
        c@.args == seq!["info"@],
{
    let mut args: Vec<String> = Vec::new();
    args.push("info".to_owned());
    let c = EngineCommand { program: "docker".to_owned(), args };
    proof {
        assert(c@.args =~= seq!["info"@]);
    }
    c
}

/// The exact command that probes for the plugin compose dialect.
pub fn compose_probe_command() -> (c: EngineCommand)
    ensures
        c@.program == "docker"@,
        c@.args == seq!["compose"@, "version"@],
{
    let mut args: Vec<String> = Vec::new();
    args.push("compose".to_owned());
    args.push("version".to_owned());
    let c = EngineCommand { program: "docker".to_owned(), args };
    proof {
        assert(c@.args =~= seq!["compose"@, "version"@]);
    }
    c
}

/// One argument, quoted as the failure log renders the attempted command.
pub open spec fn quoted(a: Seq<char>) -> Seq<char> {
    "\""@ + a + "\""@
}

/// The argument vector as the failure log renders it.
pub open spec fn args_listing(args: Seq<Seq<char>>) -> Seq<char>
    decreases args.len(),
{
    if args.len() == 0 {
        Seq::empty()
    } else if args.len() == 1 {
        quoted(args[0])
    } else {
        args_listing(args.drop_last()) + ", "@ + quoted(args.last())
    }
}

/// The whole command as the failure log renders it.
pub open spec fn command_text_spec(c: EngineCommandView) -> Seq<char> {
    c.program + " ["@ + args_listing(c.args) + "]"@
}

impl EngineCommand {
    /// Renders the command for the failure log.
    pub fn command_text(&self) -> (r: String)
        ensures
            r@ == command_text_spec(self@),
    {
        let mut s = concat2(self.program.as_str(), " [");
        let mut i: usize = 0;
        while i < self.args.len()
            invariant
                i <= self.args.len(),
                s@ == self@.program + " ["@ + args_listing(self@.args.take(i as int)),
            decreases self.args.len() - i,
        {
            proof {
                assert(self@.args.take(i + 1 as int).drop_last() =~= self@.args.take(i as int));
                assert(self@.args.take(i + 1 as int).last() == self@.args[i as int]);
            }
            if i > 0 {
                s.append(", ");
            }
            s.append("\"");
            s.append(self.args[i].as_str());
            s.append("\"");
            proof {
                if i == 0 {
                    assert(s@ =~= self@.program + " ["@ + args_listing(
                        self@.args.take(i + 1 as int),
                    ));
                } else {
                    assert(s@ =~= self@.program + " ["@ + args_listing(
                        self@.args.take(i + 1 as int),
                    ));
                }
            }
            i = i + 1;
        }
        s.append("]");
        proof {
            assert(self@.args.take(self@.args.len() as int) =~= self@.args);
            assert(s@ =~= command_text_spec(self@));
        }
        s
    }
}

/// The field at an index, or the empty string past the end.
pub open spec fn field_or_empty(fields: Seq<Seq<char>>, i: int) -> Seq<char> {
    if 0 <= i < fields.len() {
        fields[i]
    } else {
        Seq::empty()
    }
}

/// The container record one inventory line denotes: the line split at `|`
/// into id, name, image, status, ports and state, missing trailing fields
/// filled with empty strings.
pub open spec fn parse_container_view(line: Seq<char>) -> ContainerInfoView {
    let f = split_all(line, '|');
    ContainerInfoView {
        id: field_or_empty(f, 0),
        name: field_or_empty(f, 1),
        image: field_or_empty(f, 2),
        status: field_or_empty(f, 3),
        ports: field_or_empty(f, 4),
        state: field_or_empty(f, 5),
    }
}

fn get_or_empty(fields: &Vec<String>, i: usize) -> (r: String)
    ensures
        r@ == field_or_empty(fields@.map_values(|t: String| t@), i as int),
{
    if i < fields.len() {
        fields[i].clone()
    } else {
        String::new()
    }
}

/// Parses one inventory line into a container record.
pub fn parse_container_line(line: &str) -> (r: ContainerInfo)
    ensures
        r@ == parse_container_view(line@),
{
    let fields = split_char(line, '|');
    ContainerInfo {
        id: get_or_empty(&fields, 0),
        name: get_or_empty(&fields, 1),
        image: get_or_empty(&fields, 2),
        status: get_or_empty(&fields, 3),
        ports: get_or_empty(&fields, 4),
        state: get_or_empty(&fields, 5),
    }
}

/// The records of a whole inventory listing: one per non-empty line.
pub open spec fn inventory_of_lines(lines: Seq<Seq<char>>) -> Seq<ContainerInfoView>
    decreases lines.len(),
{
    if lines.len() == 0 {
        Seq::empty()
    } else {
        let rest = inventory_of_lines(lines.drop_last());
        let l = strip_cr(lines.last());
        if l.len() > 0 {
            rest.push(parse_container_view(l))
        } else {
            rest
        }
    }
}

/// The records the engine's whole standard output denotes.
pub open spec fn parse_inventory_view(text: Seq<char>) -> Seq<ContainerInfoView> {
    inventory_of_lines(split_all(text, '\n'))
}

/// Parses the engine's inventory listing: each non-empty line becomes one
/// container record.
pub fn parse_inventory(text: &str) -> (r: Vec<ContainerInfo>)
    ensures
        r@.map_values(|c: ContainerInfo| c@) == parse_inventory_view(text@),
{
    let lines = split_char(text, '\n');
    let ghost lviews = lines@.map_values(|t: String| t@);
    let mut out: Vec<ContainerInfo> = Vec::new();
    let mut i: usize = 0;
    while i < lines.len()
        invariant
            i <= lines.len(),
            lviews == lines@.map_values(|t: String| t@),
            lviews == split_all(text@, '\n'),
            out@.map_values(|c: ContainerInfo| c@) == inventory_of_lines(lviews.take(i as int)),
        decreases lines.len() - i,
    {
        proof {
            assert(lviews.take(i + 1 as int).drop_last() =~= lviews.take(i as int));
            assert(lviews.take(i + 1 as int).last() == lviews[i as int]);
        }
        let stripped = strip_trailing_cr(lines[i].as_str());
        if !stripped.as_str().is_empty() {
            out.push(parse_container_line(stripped.as_str()));
            proof {
                assert(out@.map_values(|c: ContainerInfo| c@) =~= inventory_of_lines(
                    lviews.take(i + 1 as int),
                ));
            }
        }
        i = i + 1;
    }
    proof {
        assert(lviews.take(lviews.len() as int) =~= lviews);
    }
    out
}

/// The message shown when a start is requested with no enabled service.
pub open spec fn no_services_msg() -> Seq<char> {
    "No services enabled! Please enable at least one service in the Services tab."@
}

/// The log line noting where the manifest was written.
pub open spec fn manifest_written_msg(path: Seq<char>) -> Seq<char> {
    "[DockStack] Compose file written: "@ + path
}

/// The failure message when the manifest could not be written.
pub open spec fn manifest_error_msg(err: Seq<char>) -> Seq<char> {
    "[DockStack] Error writing compose file: "@ + err
}

/// The log line that announces a start.
pub open spec fn starting_msg() -> Seq<char> {
    "[DockStack] Starting services..."@
}

/// The log line on a successful start.
pub open spec fn started_msg() -> Seq<char> {
    "[DockStack] Services started successfully"@
}

/// What a failed start reports: the trimmed captured error output, or the
/// exit code where that output is empty.
pub open spec fn failure_detail(stderr: Seq<char>, exit_text: Seq<char>) -> Seq<char> {
    if trim_spec(stderr).len() > 0 {
        trim_spec(stderr)
    } else {
        "Exit code: "@ + exit_text
    }
}

/// The detailed log entry of a failed start, with the attempted command.
pub open spec fn start_failed_log(detail: Seq<char>, command: Seq<char>) -> Seq<char> {
    "[DockStack] Failed to start services: "@ + detail + "\nCommand tried: "@ + command
}

/// The one-line status summary of a failed start.
pub open spec fn start_failed_short() -> Seq<char> {
    "Failed to start. Check Logs tab."@
}

/// The log entry when the start process could not be reaped.
pub open spec fn start_wait_failed_msg(err: Seq<char>) -> Seq<char> {
    "[DockStack] Failed to wait for docker process: "@ + err
}

/// The one-line status summary when the start process could not be reaped.
pub open spec fn wait_failed_short() -> Seq<char> {
    "Process error. Check Logs."@
}

/// The log entry when the start command could not be launched.
pub open spec fn start_spawn_failed_msg(program: Seq<char>, err: Seq<char>) -> Seq<char> {
    "[DockStack] Failed to execute docker compose command ("@ + program + "): "@ + err
}

/// The one-line status summary when the start command could not be launched.
pub open spec fn spawn_failed_short() -> Seq<char> {
    "Exec error. Check Logs."@
}

/// The log line that announces a stop.
pub open spec fn stopping_msg() -> Seq<char> {
    "[DockStack] Stopping services..."@
}

/// The log line on a successful stop.
pub open spec fn stopped_msg() -> Seq<char> {
    "[DockStack] Services stopped"@
}

/// The failure message when the teardown command exits non-zero.
pub open spec fn stop_failed_msg(exit_text: Seq<char>) -> Seq<char> {
    "[DockStack] docker compose down failed: "@ + exit_text
}

/// The failure message when the teardown process could not be reaped.
pub open spec fn stop_wait_failed_msg(err: Seq<char>) -> Seq<char> {
    "[DockStack] Wait error: "@ + err
}

/// The failure message when the teardown command could not be launched.
pub open spec fn stop_spawn_failed_msg(err: Seq<char>) -> Seq<char> {
    "[DockStack] Failed to stop docker compose: "@ + err
}

/// The log line of the blocking teardown during process shutdown.
pub open spec fn sync_stopping_msg() -> Seq<char> {
    "[DockStack] Stopping services before exit..."@
}

/// The log line that announces a restart.
pub open spec fn restarting_msg() -> Seq<char> {
    "[DockStack] Restarting services..."@
}

/// The failure message when the restart's teardown phase could not launch.
pub open spec fn restart_stop_failed_msg(err: Seq<char>) -> Seq<char> {
    "[DockStack] Stop failed during restart: "@ + err
}

/// The log line on a successful restart.
pub open spec fn restarted_msg() -> Seq<char> {
    "[DockStack] Services restarted successfully"@
}

/// The failure message when the restart's start phase fails.
pub open spec fn restart_failed_msg(detail: Seq<char>) -> Seq<char> {
    "[DockStack] Restart failed: "@ + detail
}

/// The failure message when the inventory listing fails.
pub open spec fn list_failed_msg(err: Seq<char>) -> Seq<char> {
    "Failed to list containers: "@ + err
}

/// The failure message when log streaming could not start.
pub open spec fn stream_failed_msg(err: Seq<char>) -> Seq<char> {
    "Failed to stream logs: "@ + err
}

/// The views of a vector of events.
pub open spec fn events_view(ev: Seq<DockerEvent>) -> Seq<DockerEventView> {
    ev.map_values(|e: DockerEvent| e@)
}

/// The orchestration supervisor's shared state: current status, rolling log
/// buffer, container inventory and what the engine probe found. Every
/// transition is a verified step; the caller owns the processes and pipes.
#[derive(Debug)]
pub struct Supervisor {
    pub status: ServiceStatus,
    pub logs: RollingBuffer,
    pub containers: Vec<ContainerInfo>,
    pub docker_available: bool,
    pub use_compose_plugin: bool,
}

impl Supervisor {
    /// The log buffer carries the fixed water marks and is within them.
    pub open spec fn wf(&self) -> bool {
        &&& self.logs.wf()
        &&& self.logs.high == LOG_HIGH_WATER
        &&& self.logs.low == LOG_LOW_WATER
    }

    /// The inventory as a sequence of record views.
    pub open spec fn inventory(&self) -> Seq<ContainerInfoView> {
        self.containers@.map_values(|c: ContainerInfo| c@)
    }

    /// A supervisor that has not run anything yet: stopped, with empty log
    /// buffer and inventory, the engine not yet probed.
    pub fn new() -> (r: Supervisor)
        ensures
            r.wf(),
            r.status@ is Stopped,
            r.logs@ == Seq::<Seq<char>>::empty(),
            r.inventory() == Seq::<ContainerInfoView>::empty(),
            !r.docker_available,
            !r.use_compose_plugin,
    {
        let r = Supervisor {
            status: ServiceStatus::Stopped,
            logs: RollingBuffer::new(LOG_HIGH_WATER, LOG_LOW_WATER),
            containers: Vec::new(),
            docker_available: false,
            use_compose_plugin: false,
        };
        proof {
            assert(r.inventory() =~= Seq::<ContainerInfoView>::empty());
        }
        r
    }

    /// Records what the engine probe found and reports availability.
    pub fn probe_result(&mut self, engine_ok: bool, compose_ok: bool) -> (ev: Vec<DockerEvent>)
        ensures
            final(self).docker_available == engine_ok,
            final(self).use_compose_plugin == compose_ok,
            final(self).status == old(self).status,
            final(self).logs == old(self).logs,
            final(self).containers == old(self).containers,
            events_view(ev@) == seq![DockerEventView::DockerAvailable(engine_ok)],
    {
        self.docker_available = engine_ok;
        self.use_compose_plugin = compose_ok;
        let mut ev: Vec<DockerEvent> = Vec::new();
        ev.push(DockerEvent::DockerAvailable(engine_ok));
        proof {
            assert(events_view(ev@) =~= seq![DockerEventView::DockerAvailable(engine_ok)]);
        }
        ev
    }

    /// Requests a start. With no enabled service nothing may be launched: the
    /// status becomes an error and exactly one failure event is emitted.
    /// Otherwise the status moves to `Starting` and the caller proceeds to
    /// write the manifest and launch the up command.
    pub fn start_request(&mut self, project: &ProjectConfig) -> (r: (Vec<DockerEvent>, bool))
        requires
            old(self).wf(),
        ensures
            final(self).wf(),
            final(self).containers == old(self).containers,
            final(self).docker_available == old(self).docker_available,
            final(self).use_compose_plugin == old(self).use_compose_plugin,
            final(self).logs == old(self).logs,
            r.1 == (enabled_keys(project@.services).len() > 0),
            enabled_keys(project@.services).len() == 0 ==> {
                &&& final(self).status@ matches ServiceStatusView::Error(m) && m
                    == no_services_msg()
                &&& events_view(r.0@) == seq![DockerEventView::Error(no_services_msg())]
            },
            enabled_keys(project@.services).len() > 0 ==> {
                &&& final(self).status@ is Starting
                &&& events_view(r.0@) == seq![
                    DockerEventView::StatusChange("all"@, ServiceStatusView::Starting),
                ]
            },
    {
        let mut ev: Vec<DockerEvent> = Vec::new();
        if project.enabled_count() == 0 {
            let msg = "No services enabled! Please enable at least one service in the Services tab.";
            self.status = ServiceStatus::Error(msg.to_owned());
            ev.push(DockerEvent::Error(msg.to_owned()));
            proof {
                assert(events_view(ev@) =~= seq![DockerEventView::Error(no_services_msg())]);
            }
            (ev, false)
        } else {
            self.status = ServiceStatus::Starting;
            ev.push(DockerEvent::StatusChange("all".to_owned(), ServiceStatus::Starting));
            proof {
                assert(events_view(ev@) =~= seq![
                    DockerEventView::StatusChange("all"@, ServiceStatusView::Starting),
                ]);
            }
            (ev, true)
        }
    }

    /// Notes in the log that the manifest was written and that the services
    /// are about to be started.
    pub fn manifest_written(&mut self, path: &str) -> (ev: Vec<DockerEvent>)
        requires
            old(self).wf(),
        ensures
            final(self).wf(),
            final(self).status == old(self).status,
            final(self).containers == old(self).containers,
            final(self).docker_available == old(self).docker_available,
            final(self).use_compose_plugin == old(self).use_compose_plugin,
            final(self).logs@ == rolling_append(
                rolling_append(
                    old(self).logs@,
                    manifest_written_msg(path@),
                    LOG_HIGH_WATER as int,
                    LOG_LOW_WATER as int,
                ),
                starting_msg(),
                LOG_HIGH_WATER as int,
                LOG_LOW_WATER as int,
            ),
            events_view(ev@) == seq![
                DockerEventView::Log(manifest_written_msg(path@)),
                DockerEventView::Log(starting_msg()),
            ],
    {
        let written = concat2("[DockStack] Compose file written: ", path);
        let mut ev: Vec<DockerEvent> = Vec::new();
        self.logs.append(written.clone());
        ev.push(DockerEvent::Log(written));
        let starting = "[DockStack] Starting services...".to_owned();
        self.logs.append(starting.clone());
        ev.push(DockerEvent::Log(starting));
        proof {
            assert(events_view(ev@) =~= seq![
                DockerEventView::Log(manifest_written_msg(path@)),
                DockerEventView::Log(starting_msg()),
            ]);
        }
        ev
    }

    /// Aborts a start because the manifest could not be written: the status
    /// carries the error and one failure event is emitted.
    pub fn manifest_write_failed(&mut self, err: &str) -> (ev: Vec<DockerEvent>)
        ensures
            final(self).logs == old(self).logs,
            final(self).containers == old(self).containers,
            final(self).docker_available == old(self).docker_available,
            final(self).use_compose_plugin == old(self).use_compose_plugin,
            final(self).status@ matches ServiceStatusView::Error(m) && m == err@,
            events_view(ev@) == seq![DockerEventView::Error(manifest_error_msg(err@))],
    {
        self.status = ServiceStatus::Error(err.to_owned());
        let mut ev: Vec<DockerEvent> = Vec::new();
        ev.push(DockerEvent::Error(concat2("[DockStack] Error writing compose file: ", err)));
        proof {
            assert(events_view(ev@) =~= seq![DockerEventView::Error(manifest_error_msg(err@))]);
        }
        ev
    }

    /// Appends one line of engine output to the rolling log buffer and
    /// forwards it as an event.
    pub fn log_line(&mut self, line: String) -> (ev: Vec<DockerEvent>)
        requires
            old(self).wf(),
        ensures
            final(self).wf(),
            final(self).status == old(self).status,
            final(self).containers == old(self).containers,
            final(self).docker_available == old(self).docker_available,
            final(self).use_compose_plugin == old(self).use_compose_plugin,
            final(self).logs@ == rolling_append(
                old(self).logs@,
                line@,
                LOG_HIGH_WATER as int,
                LOG_LOW_WATER as int,
            ),
            events_view(ev@) == seq![DockerEventView::Log(line@)],
    {
        let mut ev: Vec<DockerEvent> = Vec::new();
        self.logs.append(line.clone());
        ev.push(DockerEvent::Log(line));
        proof {
            assert(events_view(ev@) =~= seq![DockerEventView::Log(ev@[0]->Log_0@)]);
        }
        ev
    }

    /// Resolves a start whose process exited. Success moves to `Running`;
    /// failure routes the detailed diagnostics (captured error output, or the
    /// exit code if that is empty, plus the attempted command) to the log
    /// buffer and leaves only a short summary in the status.
    pub fn start_exit(
        &mut self,
        success: bool,
        stderr: &str,
        exit_text: &str,
        command_text: &str,
    ) -> (ev: Vec<DockerEvent>)
        requires
            old(self).wf(),
        ensures
            final(self).wf(),
            final(self).containers == old(self).containers,
            final(self).docker_available == old(self).docker_available,
            final(self).use_compose_plugin == old(self).use_compose_plugin,
            success ==> {
                &&& final(self).status@ is Running
                &&& final(self).logs@ == rolling_append(
                    old(self).logs@,
                    started_msg(),
                    LOG_HIGH_WATER as int,
                    LOG_LOW_WATER as int,
                )
                &&& events_view(ev@) == seq![
                    DockerEventView::Log(started_msg()),
                    DockerEventView::StatusChange("all"@, ServiceStatusView::Running),
                ]
            },
            !success ==> {
                &&& final(self).status@ matches ServiceStatusView::Error(m) && m
                    == start_failed_short()
                &&& final(self).logs@ == rolling_append(
                    old(self).logs@,
                    start_failed_log(failure_detail(stderr@, exit_text@), command_text@),
                    LOG_HIGH_WATER as int,
                    LOG_LOW_WATER as int,
                )
                &&& events_view(ev@) == seq![
                    DockerEventView::Log(
                        start_failed_log(failure_detail(stderr@, exit_text@), command_text@),
                    ),
                    DockerEventView::Error(start_failed_short()),
                ]
            },
    {
        let mut ev: Vec<DockerEvent> = Vec::new();
        if success {
            self.status = ServiceStatus::Running;
            let msg = "[DockStack] Services started successfully".to_owned();
            self.logs.append(msg.clone());
            ev.push(DockerEvent::Log(msg));
            ev.push(DockerEvent::StatusChange("all".to_owned(), ServiceStatus::Running));
            proof {
                assert(events_view(ev@) =~= seq![
                    DockerEventView::Log(started_msg()),
                    DockerEventView::StatusChange("all"@, ServiceStatusView::Running),
                ]);
            }
        } else {
            let trimmed = trim(stderr);
            let detail = if !trimmed.as_str().is_empty() {
                trimmed
            } else {
                concat2("Exit code: ", exit_text)
            };
            let combined = concat4(
                "[DockStack] Failed to start services: ",
                detail.as_str(),
                "\nCommand tried: ",
                command_text,
            );
            self.logs.append(combined.clone());
            ev.push(DockerEvent::Log(combined));
            let short = "Failed to start. Check Logs tab.";
            self.status = ServiceStatus::Error(short.to_owned());
            ev.push(DockerEvent::Error(short.to_owned()));
            proof {
                assert(events_view(ev@) =~= seq![
                    DockerEventView::Log(
                        start_failed_log(failure_detail(stderr@, exit_text@), command_text@),
                    ),
                    DockerEventView::Error(start_failed_short()),
                ]);
            }
        }
        ev
    }

    /// Resolves a start whose process could not be reaped.
    pub fn start_wait_failed(&mut self, err: &str) -> (ev: Vec<DockerEvent>)
        requires
            old(self).wf(),
        ensures
            final(self).wf(),
            final(self).containers == old(self).containers,
            final(self).docker_available == old(self).docker_available,
            final(self).use_compose_plugin == old(self).use_compose_plugin,
            final(self).status@ matches ServiceStatusView::Error(m) && m == wait_failed_short(),
            final(self).logs@ == rolling_append(
                old(self).logs@,
                start_wait_failed_msg(err@),
                LOG_HIGH_WATER as int,
                LOG_LOW_WATER as int,
            ),
            events_view(ev@) == seq![DockerEventView::Error(start_wait_failed_msg(err@))],
    {
        let msg = concat2("[DockStack] Failed to wait for docker process: ", err);
        self.logs.append(msg.clone());
        self.status = ServiceStatus::Error("Process error. Check Logs.".to_owned());
        let mut ev: Vec<DockerEvent> = Vec::new();
        ev.push(DockerEvent::Error(msg));
        proof {
            assert(events_view(ev@) =~= seq![DockerEventView::Error(start_wait_failed_msg(err@))]);
        }
        ev
    }

    /// Resolves a start whose command could not even be launched.
    pub fn start_spawn_failed(&mut self, program: &str, err: &str) -> (ev: Vec<DockerEvent>)
        requires
            old(self).wf(),
        ensures
            final(self).wf(),
            final(self).containers == old(self).containers,
            final(self).docker_available == old(self).docker_available,
            final(self).use_compose_plugin == old(self).use_compose_plugin,
            final(self).status@ matches ServiceStatusView::Error(m) && m == spawn_failed_short(),
            final(self).logs@ == rolling_append(
                old(self).logs@,
                start_spawn_failed_msg(program@, err@),
                LOG_HIGH_WATER as int,
                LOG_LOW_WATER as int,
            ),
            events_view(ev@) == seq![
                DockerEventView::Error(start_spawn_failed_msg(program@, err@)),
            ],
    {
        let msg = concat4(
            "[DockStack] Failed to execute docker compose command (",
            program,
            "): ",
            err,
        );
        self.logs.append(msg.clone());
        self.status = ServiceStatus::Error("Exec error. Check Logs.".to_owned());
        let mut ev: Vec<DockerEvent> = Vec::new();
        ev.push(DockerEvent::Error(msg));
        proof {
            assert(events_view(ev@) =~= seq![
                DockerEventView::Error(start_spawn_failed_msg(program@, err@)),
            ]);
        }
        ev
    }

    /// Requests a stop: the status moves to `Stopping` and the teardown is
    /// announced; the caller then launches the down command.
    pub fn stop_request(&mut self) -> (ev: Vec<DockerEvent>)
        requires
            old(self).wf(),
        ensures
            final(self).wf(),
            final(self).containers == old(self).containers,
            final(self).docker_available == old(self).docker_available,
            final(self).use_compose_plugin == old(self).use_compose_plugin,
            final(self).status@ is Stopping,
            final(self).logs@ == rolling_append(
                old(self).logs@,
                stopping_msg(),
                LOG_HIGH_WATER as int,
                LOG_LOW_WATER as int,
            ),
            events_view(ev@) == seq![
                DockerEventView::StatusChange("all"@, ServiceStatusView::Stopping),
                DockerEventView::Log(stopping_msg()),
            ],
    {
        self.status = ServiceStatus::Stopping;
        let mut ev: Vec<DockerEvent> = Vec::new();
        ev.push(DockerEvent::StatusChange("all".to_owned(), ServiceStatus::Stopping));
        let msg = "[DockStack] Stopping services...".to_owned();
        self.logs.append(msg.clone());
        ev.push(DockerEvent::Log(msg));
        proof {
            assert(events_view(ev@) =~= seq![
                DockerEventView::StatusChange("all"@, ServiceStatusView::Stopping),
                DockerEventView::Log(stopping_msg()),
            ]);
        }
        ev
    }

    /// Resolves a stop whose process exited.
    pub fn stop_exit(&mut self, success: bool, exit_text: &str) -> (ev: Vec<DockerEvent>)
        requires
            old(self).wf(),
        ensures
            final(self).wf(),
            final(self).containers == old(self).containers,
            final(self).docker_available == old(self).docker_available,
            final(self).use_compose_plugin == old(self).use_compose_plugin,
            success ==> {
                &&& final(self).status@ is Stopped
                &&& final(self).logs@ == rolling_append(
                    old(self).logs@,
                    stopped_msg(),
                    LOG_HIGH_WATER as int,
                    LOG_LOW_WATER as int,
                )
                &&& events_view(ev@) == seq![
                    DockerEventView::Log(stopped_msg()),
                    DockerEventView::StatusChange("all"@, ServiceStatusView::Stopped),
                ]
            },
            !success ==> {
                &&& final(self).status@ matches ServiceStatusView::Error(m) && m
                    == stop_failed_msg(exit_text@)
                &&& final(self).logs == old(self).logs
                &&& events_view(ev@) == seq![DockerEventView::Error(stop_failed_msg(exit_text@))]
            },
    {
        let mut ev: Vec<DockerEvent> = Vec::new();
        if success {
            self.status = ServiceStatus::Stopped;
            let msg = "[DockStack] Services stopped".to_owned();
            self.logs.append(msg.clone());
            ev.push(DockerEvent::Log(msg));
            ev.push(DockerEvent::StatusChange("all".to_owned(), ServiceStatus::Stopped));
            proof {
                assert(events_view(ev@) =~= seq![
                    DockerEventView::Log(stopped_msg()),
                    DockerEventView::StatusChange("all"@, ServiceStatusView::Stopped),
                ]);
            }
        } else {
            let msg = concat2("[DockStack] docker compose down failed: ", exit_text);
            self.status = ServiceStatus::Error(msg.clone());
            ev.push(DockerEvent::Error(msg));
            proof {
                assert(events_view(ev@) =~= seq![
                    DockerEventView::Error(stop_failed_msg(exit_text@)),
                ]);
            }
        }
        ev
    }

    /// Resolves a stop whose process could not be reaped.
    pub fn stop_wait_failed(&mut self, err: &str) -> (ev: Vec<DockerEvent>)
        ensures
            final(self).logs == old(self).logs,
            final(self).containers == old(self).containers,
            final(self).docker_available == old(self).docker_available,
            final(self).use_compose_plugin == old(self).use_compose_plugin,
            final(self).status@ matches ServiceStatusView::Error(m) && m == stop_wait_failed_msg(
                err@,
            ),
            events_view(ev@) == seq![DockerEventView::Error(stop_wait_failed_msg(err@))],
    {
        let msg = concat2("[DockStack] Wait error: ", err);
        self.status = ServiceStatus::Error(msg.clone());
        let mut ev: Vec<DockerEvent> = Vec::new();
        ev.push(DockerEvent::Error(msg));
        proof {
            assert(events_view(ev@) =~= seq![DockerEventView::Error(stop_wait_failed_msg(err@))]);
        }
        ev
    }

    /// Resolves a stop whose command could not even be launched.
    pub fn stop_spawn_failed(&mut self, err: &str) -> (ev: Vec<DockerEvent>)
        ensures
            final(self).logs == old(self).logs,
            final(self).containers == old(self).containers,
            final(self).docker_available == old(self).docker_available,
            final(self).use_compose_plugin == old(self).use_compose_plugin,
            final(self).status@ matches ServiceStatusView::Error(m) && m == stop_spawn_failed_msg(
                err@,
            ),
            events_view(ev@) == seq![DockerEventView::Error(stop_spawn_failed_msg(err@))],
    {
        let msg = concat2("[DockStack] Failed to stop docker compose: ", err);
        self.status = ServiceStatus::Error(msg.clone());
        let mut ev: Vec<DockerEvent> = Vec::new();
        ev.push(DockerEvent::Error(msg));
        proof {
            assert(events_view(ev@) =~= seq![DockerEventView::Error(stop_spawn_failed_msg(err@))]);
        }
        ev
    }

    /// Notes in the log that a blocking teardown runs before the process
    /// exits; the caller then runs the down command inheriting its streams.
    pub fn sync_stop_note(&mut self) -> (ev: Vec<DockerEvent>)
        requires
            old(self).wf(),
        ensures
            final(self).wf(),
            final(self).status == old(self).status,
            final(self).containers == old(self).containers,
            final(self).docker_available == old(self).docker_available,
            final(self).use_compose_plugin == old(self).use_compose_plugin,
            final(self).logs@ == rolling_append(
                old(self).logs@,
                sync_stopping_msg(),
                LOG_HIGH_WATER as int,
                LOG_LOW_WATER as int,
            ),
            events_view(ev@) == seq![DockerEventView::Log(sync_stopping_msg())],
    {
        let msg = "[DockStack] Stopping services before exit...".to_owned();
        self.logs.append(msg.clone());
        let mut ev: Vec<DockerEvent> = Vec::new();
        ev.push(DockerEvent::Log(msg));
        proof {
            assert(events_view(ev@) =~= seq![DockerEventView::Log(sync_stopping_msg())]);
        }
        ev
    }

    /// Requests a restart: the status moves to `Stopping` and the restart is
    /// announced; the caller then runs teardown, manifest rewrite and start.
    pub fn restart_request(&mut self) -> (ev: Vec<DockerEvent>)
        requires
            old(self).wf(),
        ensures
            final(self).wf(),
            final(self).containers == old(self).containers,
            final(self).docker_available == old(self).docker_available,
            final(self).use_compose_plugin == old(self).use_compose_plugin,
            final(self).status@ is Stopping,
            final(self).logs@ == rolling_append(
                old(self).logs@,
                restarting_msg(),
                LOG_HIGH_WATER as int,
                LOG_LOW_WATER as int,
            ),
            events_view(ev@) == seq![DockerEventView::Log(restarting_msg())],
    {
        self.status = ServiceStatus::Stopping;
        let msg = "[DockStack] Restarting services...".to_owned();
        self.logs.append(msg.clone());
        let mut ev: Vec<DockerEvent> = Vec::new();
        ev.push(DockerEvent::Log(msg));
        proof {
            assert(events_view(ev@) =~= seq![DockerEventView::Log(restarting_msg())]);
        }
        ev
    }

    /// Aborts a restart whose teardown phase could not launch; the start
    /// phase must not be attempted.
    pub fn restart_stop_failed(&mut self, err: &str) -> (ev: Vec<DockerEvent>)
        ensures
            final(self).logs == old(self).logs,
            final(self).containers == old(self).containers,
            final(self).docker_available == old(self).docker_available,
            final(self).use_compose_plugin == old(self).use_compose_plugin,
            final(self).status@ matches ServiceStatusView::Error(m) && m
                == restart_stop_failed_msg(err@),
            events_view(ev@) == seq![DockerEventView::Error(restart_stop_failed_msg(err@))],
    {
        let msg = concat2("[DockStack] Stop failed during restart: ", err);
        self.status = ServiceStatus::Error(msg.clone());
        let mut ev: Vec<DockerEvent> = Vec::new();
        ev.push(DockerEvent::Error(msg));
        proof {
            assert(events_view(ev@) =~= seq![
                DockerEventView::Error(restart_stop_failed_msg(err@)),
            ]);
        }
        ev
    }

    /// Aborts a restart because the manifest could not be rewritten.
    pub fn restart_write_failed(&mut self, err: &str) -> (ev: Vec<DockerEvent>)
        ensures
            final(self).logs == old(self).logs,
            final(self).containers == old(self).containers,
            final(self).docker_available == old(self).docker_available,
            final(self).use_compose_plugin == old(self).use_compose_plugin,
            final(self).status@ matches ServiceStatusView::Error(m) && m == manifest_error_msg(
                err@,
            ),
            events_view(ev@) == seq![DockerEventView::Error(manifest_error_msg(err@))],
    {
        let msg = concat2("[DockStack] Error writing compose file: ", err);
        self.status = ServiceStatus::Error(msg.clone());
        let mut ev: Vec<DockerEvent> = Vec::new();
        ev.push(DockerEvent::Error(msg));
        proof {
            assert(events_view(ev@) =~= seq![DockerEventView::Error(manifest_error_msg(err@))]);
        }
        ev
    }

    /// Enters the start phase of a restart.
    pub fn restart_starting(&mut self)
        ensures
            final(self).logs == old(self).logs,
            final(self).containers == old(self).containers,
            final(self).docker_available == old(self).docker_available,
            final(self).use_compose_plugin == old(self).use_compose_plugin,
            final(self).status@ is Starting,
    {
        self.status = ServiceStatus::Starting;
    }

    /// Resolves the start phase of a restart.
    pub fn restart_exit(&mut self, success: bool, stderr: &str) -> (ev: Vec<DockerEvent>)
        requires
            old(self).wf(),
        ensures
            final(self).wf(),
            final(self).containers == old(self).containers,
            final(self).docker_available == old(self).docker_available,
            final(self).use_compose_plugin == old(self).use_compose_plugin,
            success ==> {
                &&& final(self).status@ is Running
                &&& final(self).logs@ == rolling_append(
                    old(self).logs@,
                    restarted_msg(),
                    LOG_HIGH_WATER as int,
                    LOG_LOW_WATER as int,
                )
                &&& events_view(ev@) == seq![
                    DockerEventView::Log(restarted_msg()),
                    DockerEventView::StatusChange("all"@, ServiceStatusView::Running),
                ]
            },
            !success ==> {
                &&& final(self).status@ matches ServiceStatusView::Error(m) && m
                    == restart_failed_msg(stderr@)
                &&& final(self).logs == old(self).logs
                &&& events_view(ev@) == seq![DockerEventView::Error(restart_failed_msg(stderr@))]
            },
    {
        let mut ev: Vec<DockerEvent> = Vec::new();
        if success {
            self.status = ServiceStatus::Running;
            let msg = "[DockStack] Services restarted successfully".to_owned();
            self.logs.append(msg.clone());
            ev.push(DockerEvent::Log(msg));
            ev.push(DockerEvent::StatusChange("all".to_owned(), ServiceStatus::Running));
            proof {
                assert(events_view(ev@) =~= seq![
                    DockerEventView::Log(restarted_msg()),
                    DockerEventView::StatusChange("all"@, ServiceStatusView::Running),
                ]);
            }
        } else {
            let msg = concat2("[DockStack] Restart failed: ", stderr);
            self.status = ServiceStatus::Error(msg.clone());
            ev.push(DockerEvent::Error(msg));
            proof {
                assert(events_view(ev@) =~= seq![
                    DockerEventView::Error(restart_failed_msg(stderr@)),
                ]);
            }
        }
        ev
    }

    /// Replaces the whole inventory with what one listing reported and emits
    /// one inventory event.
    pub fn refresh_result(&mut self, stdout: &str) -> (ev: Vec<DockerEvent>)
        ensures
            final(self).logs == old(self).logs,
            final(self).status == old(self).status,
            final(self).docker_available == old(self).docker_available,
            final(self).use_compose_plugin == old(self).use_compose_plugin,
            final(self).inventory() == parse_inventory_view(stdout@),
            events_view(ev@) == seq![
                DockerEventView::ContainerList(parse_inventory_view(stdout@)),
            ],
    {
        let list = parse_inventory(stdout);
        let copy = clone_containers(&list);
        self.containers = list;
        let mut ev: Vec<DockerEvent> = Vec::new();
        ev.push(DockerEvent::ContainerList(copy));
        proof {
            assert(events_view(ev@) =~= seq![
                DockerEventView::ContainerList(parse_inventory_view(stdout@)),
            ]);
        }
        ev
    }

    /// Reports a failed inventory listing; the stored inventory is unchanged.
    pub fn refresh_failed(&mut self, err: &str) -> (ev: Vec<DockerEvent>)
        ensures
            final(self).logs == old(self).logs,
            final(self).status == old(self).status,
            final(self).containers == old(self).containers,
            final(self).docker_available == old(self).docker_available,
            final(self).use_compose_plugin == old(self).use_compose_plugin,
            events_view(ev@) == seq![DockerEventView::Error(list_failed_msg(err@))],
    {
        let mut ev: Vec<DockerEvent> = Vec::new();
        ev.push(DockerEvent::Error(concat2("Failed to list containers: ", err)));
        proof {
            assert(events_view(ev@) =~= seq![DockerEventView::Error(list_failed_msg(err@))]);
        }
        ev
    }

    /// Reports that log streaming could not start.
    pub fn stream_spawn_failed(&mut self, err: &str) -> (ev: Vec<DockerEvent>)
        ensures
            final(self).logs == old(self).logs,
            final(self).status == old(self).status,
            final(self).containers == old(self).containers,
            final(self).docker_available == old(self).docker_available,
            final(self).use_compose_plugin == old(self).use_compose_plugin,
            events_view(ev@) == seq![DockerEventView::Error(stream_failed_msg(err@))],
    {
        let mut ev: Vec<DockerEvent> = Vec::new();
        ev.push(DockerEvent::Error(concat2("Failed to stream logs: ", err)));
        proof {
            assert(events_view(ev@) =~= seq![DockerEventView::Error(stream_failed_msg(err@))]);
        }
        ev
    }

    /// Empties the rolling log buffer.
    pub fn clear_logs(&mut self)
        requires
            old(self).wf(),
        ensures
            final(self).wf(),
            final(self).status == old(self).status,
            final(self).containers == old(self).containers,
            final(self).docker_available == old(self).docker_available,
            final(self).use_compose_plugin == old(self).use_compose_plugin,
            final(self).logs@ == Seq::<Seq<char>>::empty(),
    {
        self.logs.clear();
    }
}

} // verus!
