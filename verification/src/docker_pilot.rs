//! The container pilot: an API-key protected front to a Docker daemon that
//! keeps an audit log of the changes it makes.
use vstd::prelude::*;

use crate::auth::{authorized, is_visible_text};
use crate::text::{join2, join3, trim_leading_slashes, trim_start_slashes};

verus! {

pub const STATUS_OK: u16 = 200;
pub const STATUS_CREATED: u16 = 201;
pub const STATUS_UNAUTHORIZED: u16 = 401;
pub const STATUS_INTERNAL_SERVER_ERROR: u16 = 500;

/// How many of the newest audit entries a request for the log shows.
pub const RECENT_LIMIT: u32 = 50;

/// Seconds that Docker waits for a container to stop before killing it.
pub const STOP_TIMEOUT_SECS: i32 = 10;

/// The body of every answer of the pilot that is not a listing.
pub struct ApiResponse {
    pub message: String,
}

/// An answer: an HTTP status and its body.
pub struct Reply {
    pub status: u16,
    pub body: ApiResponse,
}

/// The answer with the given status and text.
pub open spec fn is_reply(reply: Reply, status: u16, text: Seq<char>) -> bool {
    reply.status == status && reply.body.message@ == text
}

/// The raw bytes of the API-key header, if the request has one.
pub open spec fn header_view(header: Option<Vec<u8>>) -> Option<Seq<u8>> {
    match header {
        Some(bytes) => Some(bytes@),
        None => None,
    }
}

/// Answer of the health endpoint.
pub fn health() -> (res: ApiResponse)
    ensures
        res.message@ == "ok"@,
{
    ApiResponse { message: "ok".to_string() }
}

/// Checks the `x-api-key` header of a request against the configured key.
/// A missing header, or one that is not visible ASCII, counts as the empty
/// text.
pub fn check_auth(header: &Option<Vec<u8>>, api_key: &str) -> (res: Result<(), Reply>)
    ensures
        res is Ok <==> authorized(header_view(*header), api_key@),
        res matches Err(e) ==> is_reply(e, STATUS_UNAUTHORIZED, "invalid or missing API key"@),
{
    let matches = match header {
        Some(bytes) => if is_visible_text(bytes.as_slice()) {
            proof {
                crate::auth::lemma_visible_bytes_match_key(bytes@, api_key@);
            }
            crate::auth::bytes_equal(bytes.as_slice(), api_key.as_bytes())
        } else {
            let empty = api_key.is_empty();
            assert(empty <==> api_key@ =~= Seq::<char>::empty());
            empty
        },
        None => {
            let empty = api_key.is_empty();
            assert(empty <==> api_key@ =~= Seq::<char>::empty());
            empty
        },
    };
    if matches {
        Ok(())
    } else {
        Err(
            Reply {
                status: STATUS_UNAUTHORIZED,
                body: ApiResponse { message: "invalid or missing API key".to_string() },
            },
        )
    }
}

/// The listing to ask the Docker daemon for.
pub struct ContainerQuery {
    /// List stopped containers too.
    pub all: bool,
}

/// The read of the audit log to ask the database for: the newest entries,
/// by falling id.
pub struct AuditQuery {
    pub limit: u32,
}

/// Starts a listing of containers: refuses it when the API key does not
/// match, before Docker is asked anything; else asks Docker for every
/// container, stopped ones included.
pub fn begin_list_containers(header: &Option<Vec<u8>>, api_key: &str) -> (res: Result<
    ContainerQuery,
    Reply,
>)
    ensures
        res is Ok <==> authorized(header_view(*header), api_key@),
        res matches Ok(q) ==> q.all,
        res matches Err(e) ==> is_reply(e, STATUS_UNAUTHORIZED, "invalid or missing API key"@),
{
    match check_auth(header, api_key) {
        Ok(()) => Ok(ContainerQuery { all: true }),
        Err(e) => Err(e),
    }
}

/// Starts a read of the audit log: refuses it when the API key does not
/// match, before the database is asked anything; else asks for the
/// `RECENT_LIMIT` newest entries.
pub fn begin_get_logs(header: &Option<Vec<u8>>, api_key: &str) -> (res: Result<AuditQuery, Reply>)
    ensures
        res is Ok <==> authorized(header_view(*header), api_key@),
        res matches Ok(q) ==> q.limit == RECENT_LIMIT,
        res matches Err(e) ==> is_reply(e, STATUS_UNAUTHORIZED, "invalid or missing API key"@),
{
    match check_auth(header, api_key) {
        Ok(()) => Ok(AuditQuery { limit: RECENT_LIMIT }),
        Err(e) => Err(e),
    }
}

/// What the Docker daemon reports of one container, as far as the pilot
/// reads it.
pub struct ContainerSummary {
    pub id: Option<String>,
    pub names: Option<Vec<String>>,
    pub image: Option<String>,
    pub state: Option<String>,
}

/// One container as the pilot lists it.
pub struct ContainerInfo {
    pub id: String,
    pub name: String,
    pub image: String,
    pub state: String,
}

/// One entry of the audit log.
pub struct AuditLog {
    pub id: i64,
    pub action: String,
    pub container_name: String,
    pub timestamp: String,
}

/// An entry of the audit log as values.
pub struct AuditRecord {
    pub id: i64,
    pub action: Seq<char>,
    pub container_name: Seq<char>,
    pub timestamp: Seq<char>,
}

impl View for AuditLog {
    type V = AuditRecord;

    open spec fn view(&self) -> AuditRecord {
        AuditRecord {
            id: self.id,
            action: self.action@,
            container_name: self.container_name@,
            timestamp: self.timestamp@,
        }
    }
}

/// What the database returned for the audit log, as values.
pub open spec fn log_rows_view(rows: Result<Vec<AuditLog>, String>) -> Result<Seq<AuditRecord>, Seq<char>> {
    match rows {
        Ok(v) => Ok(v@.map_values(|l: AuditLog| l@)),
        Err(e) => Err(e@),
    }
}

/// The answer to a request for the audit log, as values.
pub open spec fn logs_view(res: Result<Vec<AuditLog>, Reply>) -> Result<Seq<AuditRecord>, (u16, Seq<char>)> {
    match res {
        Ok(v) => Ok(v@.map_values(|l: AuditLog| l@)),
        Err(e) => Err((e.status, e.body.message@)),
    }
}

/// How a request for the audit log is answered, given what the database
/// returned.
pub open spec fn logs_answer(rows: Result<Seq<AuditRecord>, Seq<char>>) -> Result<
    Seq<AuditRecord>,
    (u16, Seq<char>),
> {
    match rows {
        Ok(v) => Ok(v),
        Err(detail) => Err((STATUS_INTERNAL_SERVER_ERROR, "database error: "@ + detail)),
    }
}

/// The text of an optional field, empty when it is missing.
pub open spec fn text_or_empty(field: Option<String>) -> Seq<char> {
    match field {
        Some(s) => s@,
        None => Seq::empty(),
    }
}

/// The first of a container's names, empty when it has none.
pub open spec fn first_name(names: Option<Vec<String>>) -> Seq<char> {
    match names {
        Some(v) => if v@.len() > 0 {
            v@[0]@
        } else {
            Seq::empty()
        },
        None => Seq::empty(),
    }
}

/// `info` lists the container that `summary` describes: missing fields
/// become empty, and the name is the first name without its leading
/// slashes.
pub open spec fn lists(info: ContainerInfo, summary: ContainerSummary) -> bool {
    &&& info.id@ == text_or_empty(summary.id)
    &&& info.name@ == trim_leading_slashes(first_name(summary.names))
    &&& info.image@ == text_or_empty(summary.image)
    &&& info.state@ == text_or_empty(summary.state)
}

fn text_of(field: &Option<String>) -> (res: String)
    ensures
        res@ == text_or_empty(*field),
{
    match field {
        Some(s) => s.clone(),
        None => String::new(),
    }
}

/// How the pilot lists one container.
pub fn container_info(summary: &ContainerSummary) -> (res: ContainerInfo)
    ensures
        lists(res, *summary),
        summary.id matches Some(s) ==> res.id@ == s@,
        summary.id is None ==> res.id@.len() == 0,
        summary.image matches Some(s) ==> res.image@ == s@,
        summary.image is None ==> res.image@.len() == 0,
        summary.state matches Some(s) ==> res.state@ == s@,
        summary.state is None ==> res.state@.len() == 0,
{
    let first = match &summary.names {
        Some(v) => if v.len() > 0 {
            v[0].clone()
        } else {
            String::new()
        },
        None => String::new(),
    };
    ContainerInfo {
        id: text_of(&summary.id),
        name: trim_start_slashes(first.as_str()),
        image: text_of(&summary.image),
        state: text_of(&summary.state),
    }
}

/// The answer when Docker failed with the message `detail`, after the
/// given prefix.
fn failure(prefix: &str, detail: &String) -> (res: Reply)
    ensures
        is_reply(res, STATUS_INTERNAL_SERVER_ERROR, prefix@ + detail@),
{
    Reply { status: STATUS_INTERNAL_SERVER_ERROR, body: ApiResponse { message: join2(prefix, detail.as_str()) } }
}

/// The answer to a listing of containers, given what the Docker daemon
/// returned for all of them, stopped ones included.
pub fn finish_list_containers(listed: Result<Vec<ContainerSummary>, String>) -> (res: Result<
    Vec<ContainerInfo>,
    Reply,
>)
    ensures
        listed is Ok <==> res is Ok,
        listed matches Ok(v) ==> res matches Ok(w) && w@.len() == v@.len() && forall|i: int|
            0 <= i < v@.len() ==> lists(#[trigger] w@[i], v@[i]),
        listed matches Err(detail) ==> res matches Err(e) && is_reply(
            e,
            STATUS_INTERNAL_SERVER_ERROR,
            "Docker error: "@ + detail@,
        ),
{
    match listed {
        Err(detail) => Err(failure("Docker error: ", &detail)),
        Ok(summaries) => {
            let mut infos: Vec<ContainerInfo> = Vec::new();
            let mut i: usize = 0;
            while i < summaries.len()
                invariant
                    i <= summaries@.len(),
                    infos@.len() == i,
                    forall|j: int| 0 <= j < i ==> lists(#[trigger] infos@[j], summaries@[j]),
                decreases summaries@.len() - i,
            {
                infos.push(container_info(&summaries[i]));
                i = i + 1;
            }
            Ok(infos)
        },
    }
}

/// The answer to a request for the audit log, given what the database
/// returned for its newest entries.
pub fn finish_get_logs(rows: Result<Vec<AuditLog>, String>) -> (res: Result<Vec<AuditLog>, Reply>)
    ensures
        logs_view(res) == logs_answer(log_rows_view(rows)),
        rows is Ok <==> res is Ok,
        rows matches Ok(v) ==> res matches Ok(w) && w@ == v@,
        rows matches Err(detail) ==> res matches Err(e) && is_reply(
            e,
            STATUS_INTERNAL_SERVER_ERROR,
            "database error: "@ + detail@,
        ),
{
    match rows {
        Ok(entries) => Ok(entries),
        Err(detail) => Err(failure("database error: ", &detail)),
    }
}

/// A request that changes a container.
pub enum ContainerRequest {
    /// Create a container with the given name from an image, then start it.
    Create { name: String, image: String },
    /// Stop the named container.
    Stop { name: String },
    /// Remove the named container, running or not.
    Remove { name: String },
}

/// Where a change of a container stands.
#[derive(PartialEq, Eq, Structural, Clone, Copy)]
pub enum Phase {
    AwaitCreate,
    AwaitStart,
    AwaitStop,
    AwaitRemove,
    AwaitRecord,
    Finished,
}

/// A change of a container in progress.
pub struct ContainerFlow {
    pub request: ContainerRequest,
    pub phase: Phase,
}

/// A call to the Docker daemon.
pub enum DockerCall {
    CreateContainer { name: String, image: String },
    StartContainer { name: String },
    StopContainer { name: String, timeout_secs: i32 },
    RemoveContainer { name: String, force: bool },
}

/// What the program around the pilot is to do next.
pub enum Command {
    /// Make a Docker call and hand back whether it succeeded.
    Docker(DockerCall),
    /// Add an entry to the audit log and hand back what the database said.
    Record { action: String, container_name: String },
    /// Answer the request; the change is over.
    Respond(Reply),
}

/// A Docker call, with its texts as character sequences.
pub enum DockerCallView {
    CreateContainer { name: Seq<char>, image: Seq<char> },
    StartContainer { name: Seq<char> },
    StopContainer { name: Seq<char>, timeout_secs: i32 },
    RemoveContainer { name: Seq<char>, force: bool },
}

/// A command, with its texts as character sequences.
pub enum CommandView {
    Docker(DockerCallView),
    Record { action: Seq<char>, container_name: Seq<char> },
    Respond { status: u16, message: Seq<char> },
}

impl View for DockerCall {
    type V = DockerCallView;

    open spec fn view(&self) -> DockerCallView {
        match self {
            DockerCall::CreateContainer { name, image } => DockerCallView::CreateContainer {
                name: name@,
                image: image@,
            },
            DockerCall::StartContainer { name } => DockerCallView::StartContainer { name: name@ },
            DockerCall::StopContainer { name, timeout_secs } => DockerCallView::StopContainer {
                name: name@,
                timeout_secs: *timeout_secs,
            },
            DockerCall::RemoveContainer { name, force } => DockerCallView::RemoveContainer {
                name: name@,
                force: *force,
            },
        }
    }
}

impl View for Command {
    type V = CommandView;

    open spec fn view(&self) -> CommandView {
        match self {
            Command::Docker(call) => CommandView::Docker(call@),
            Command::Record { action, container_name } => CommandView::Record {
                action: action@,
                container_name: container_name@,
            },
            Command::Respond(reply) => CommandView::Respond {
                status: reply.status,
                message: reply.body.message@,
            },
        }
    }
}

/// The container that a request names.
pub open spec fn request_name(request: ContainerRequest) -> Seq<char> {
    match request {
        ContainerRequest::Create { name, .. } => name@,
        ContainerRequest::Stop { name } => name@,
        ContainerRequest::Remove { name } => name@,
    }
}

/// The action under which the audit log records a request.
pub open spec fn action_label(request: ContainerRequest) -> Seq<char> {
    match request {
        ContainerRequest::Create { .. } => "create"@,
        ContainerRequest::Stop { .. } => "stop"@,
        ContainerRequest::Remove { .. } => "remove"@,
    }
}

/// The phase a request starts in once it is authorized.
pub open spec fn first_phase(request: ContainerRequest) -> Phase {
    match request {
        ContainerRequest::Create { .. } => Phase::AwaitCreate,
        ContainerRequest::Stop { .. } => Phase::AwaitStop,
        ContainerRequest::Remove { .. } => Phase::AwaitRemove,
    }
}

/// The Docker call a request starts with once it is authorized.
pub open spec fn first_call(request: ContainerRequest) -> DockerCallView {
    match request {
        ContainerRequest::Create { name, image } => DockerCallView::CreateContainer {
            name: name@,
            image: image@,
        },
        ContainerRequest::Stop { name } => DockerCallView::StopContainer {
            name: name@,
            timeout_secs: STOP_TIMEOUT_SECS,
        },
        ContainerRequest::Remove { name } => DockerCallView::RemoveContainer {
            name: name@,
            force: true,
        },
    }
}

/// The text put before Docker's error message when the call awaited in
/// `phase` fails.
pub open spec fn failure_prefix(phase: Phase) -> Seq<char> {
    match phase {
        Phase::AwaitCreate => "failed to create container: "@,
        Phase::AwaitStart => "created but failed to start: "@,
        Phase::AwaitStop => "failed to stop container: "@,
        Phase::AwaitRemove => "failed to remove container: "@,
        _ => Seq::empty(),
    }
}

/// The answer once a request has been carried out and recorded.
pub open spec fn success_reply(request: ContainerRequest) -> CommandView {
    match request {
        ContainerRequest::Create { name, .. } => CommandView::Respond {
            status: STATUS_CREATED,
            message: "container '"@ + name@ + "' created and started"@,
        },
        ContainerRequest::Stop { name } => CommandView::Respond {
            status: STATUS_OK,
            message: "container '"@ + name@ + "' stopped"@,
        },
        ContainerRequest::Remove { name } => CommandView::Respond {
            status: STATUS_OK,
            message: "container '"@ + name@ + "' removed"@,
        },
    }
}

/// Whether the last call succeeded, with the error message when not.
pub open spec fn outcome_view(outcome: Result<(), String>) -> Result<(), Seq<char>> {
    match outcome {
        Ok(()) => Ok(()),
        Err(e) => Err(e@),
    }
}

/// The phase after `phase`, given whether the awaited call succeeded.
pub open spec fn next_phase(phase: Phase, succeeded: bool) -> Phase {
    match phase {
        Phase::AwaitCreate => if succeeded {
            Phase::AwaitStart
        } else {
            Phase::Finished
        },
        Phase::AwaitStart | Phase::AwaitStop | Phase::AwaitRemove => if succeeded {
            Phase::AwaitRecord
        } else {
            Phase::Finished
        },
        _ => Phase::Finished,
    }
}

/// The command after the call awaited in `phase` came back with `outcome`.
/// The outcome of recording is not looked at: the change is answered as
/// done whatever the audit log said.
pub open spec fn next_command(
    request: ContainerRequest,
    phase: Phase,
    outcome: Result<(), Seq<char>>,
) -> CommandView {
    match phase {
        Phase::AwaitCreate => match outcome {
            Ok(()) => CommandView::Docker(DockerCallView::StartContainer { name: request_name(request) }),
            Err(e) => CommandView::Respond {
                status: STATUS_INTERNAL_SERVER_ERROR,
                message: failure_prefix(phase) + e,
            },
        },
        Phase::AwaitStart | Phase::AwaitStop | Phase::AwaitRemove => match outcome {
            Ok(()) => CommandView::Record {
                action: action_label(request),
                container_name: request_name(request),
            },
            Err(e) => CommandView::Respond {
                status: STATUS_INTERNAL_SERVER_ERROR,
                message: failure_prefix(phase) + e,
            },
        },
        _ => success_reply(request),
    }
}

fn name_of(request: &ContainerRequest) -> (res: String)
    ensures
        res@ == request_name(*request),
{
    match request {
        ContainerRequest::Create { name, .. } => name.clone(),
        ContainerRequest::Stop { name } => name.clone(),
        ContainerRequest::Remove { name } => name.clone(),
    }
}

impl ContainerFlow {
    /// Starts a change of a container: refuses it when the API key does not
    /// match, else asks for its first Docker call.
    pub fn begin(request: ContainerRequest, header: &Option<Vec<u8>>, api_key: &str) -> (res: (
        ContainerFlow,
        Command,
    ))
        ensures
            res.0.request == request,
            authorized(header_view(*header), api_key@) ==> res.0.phase == first_phase(request)
                && res.1@ == CommandView::Docker(first_call(request)),
            authorized(header_view(*header), api_key@) ==> match request {
                ContainerRequest::Create { name, image } => res.1@ == CommandView::Docker(
                    DockerCallView::CreateContainer { name: name@, image: image@ },
                ),
                ContainerRequest::Stop { name } => res.1@ == CommandView::Docker(
                    DockerCallView::StopContainer { name: name@, timeout_secs: 10 },
                ),
                ContainerRequest::Remove { name } => res.1@ == CommandView::Docker(
                    DockerCallView::RemoveContainer { name: name@, force: true },
                ),
            },
            !authorized(header_view(*header), api_key@) ==> res.0.phase == Phase::Finished
                && res.1@ == (CommandView::Respond {
                status: STATUS_UNAUTHORIZED,
                message: "invalid or missing API key"@,
            }),
    {
        match check_auth(header, api_key) {
            Err(refusal) => (ContainerFlow { request, phase: Phase::Finished }, Command::Respond(refusal)),
            Ok(()) => {
                let (phase, call) = match &request {
                    ContainerRequest::Create { name, image } => (
                        Phase::AwaitCreate,
                        DockerCall::CreateContainer { name: name.clone(), image: image.clone() },
                    ),
                    ContainerRequest::Stop { name } => (
                        Phase::AwaitStop,
                        DockerCall::StopContainer { name: name.clone(), timeout_secs: STOP_TIMEOUT_SECS },
                    ),
                    ContainerRequest::Remove { name } => (
                        Phase::AwaitRemove,
                        DockerCall::RemoveContainer { name: name.clone(), force: true },
                    ),
                };
                (ContainerFlow { request, phase }, Command::Docker(call))
            },
        }
    }

    /// Whether the change is over and answered.
    pub fn is_finished(&self) -> (res: bool)
        ensures
            res == (self.phase == Phase::Finished),
    {
        self.phase == Phase::Finished
    }

    /// Moves the change on, given how the last command came out.
    pub fn step(self, outcome: Result<(), String>) -> (res: (ContainerFlow, Command))
        requires
            self.phase != Phase::Finished,
        ensures
            res.0.request == self.request,
            res.0.phase == next_phase(self.phase, outcome is Ok),
            res.1@ == next_command(self.request, self.phase, outcome_view(outcome)),
    {
        let phase = self.phase;
        let name = name_of(&self.request);
        match phase {
            Phase::AwaitCreate => match outcome {
                Ok(()) => (
                    ContainerFlow { request: self.request, phase: Phase::AwaitStart },
                    Command::Docker(DockerCall::StartContainer { name }),
                ),
                Err(e) => (
                    ContainerFlow { request: self.request, phase: Phase::Finished },
                    Command::Respond(failure("failed to create container: ", &e)),
                ),
            },
            Phase::AwaitStart | Phase::AwaitStop | Phase::AwaitRemove => match outcome {
                Ok(()) => {
                    let action = match &self.request {
                        ContainerRequest::Create { .. } => "create".to_string(),
                        ContainerRequest::Stop { .. } => "stop".to_string(),
                        ContainerRequest::Remove { .. } => "remove".to_string(),
                    };
                    (
                        ContainerFlow { request: self.request, phase: Phase::AwaitRecord },
                        Command::Record { action, container_name: name },
                    )
                },
                Err(e) => {
                    let prefix = match phase {
                        Phase::AwaitStart => "created but failed to start: ",
                        Phase::AwaitStop => "failed to stop container: ",
                        _ => "failed to remove container: ",
                    };
                    (
                        ContainerFlow { request: self.request, phase: Phase::Finished },
                        Command::Respond(failure(prefix, &e)),
                    )
                },
            },
            _ => {
                let reply = match &self.request {
                    ContainerRequest::Create { .. } => Reply {
                        status: STATUS_CREATED,
                        body: ApiResponse {
                            message: join3("container '", name.as_str(), "' created and started"),
                        },
                    },
                    ContainerRequest::Stop { .. } => Reply {
                        status: STATUS_OK,
                        body: ApiResponse { message: join3("container '", name.as_str(), "' stopped") },
                    },
                    ContainerRequest::Remove { .. } => Reply {
                        status: STATUS_OK,
                        body: ApiResponse { message: join3("container '", name.as_str(), "' removed") },
                    },
                };
                (ContainerFlow { request: self.request, phase: Phase::Finished }, Command::Respond(reply))
            },
        }
    }
}

/// How many more commands a change can give from `phase` at most.
pub open spec fn steps_left(phase: Phase) -> nat {
    match phase {
        Phase::AwaitCreate => 3,
        Phase::AwaitStart | Phase::AwaitStop | Phase::AwaitRemove => 2,
        Phase::AwaitRecord => 1,
        Phase::Finished => 0,
    }
}

/// The commands a change gives from `phase` on when the calls it asks for
/// come back with `outcomes`, one after another, until it is finished or
/// the outcomes run out.
pub open spec fn commands_after(
    request: ContainerRequest,
    phase: Phase,
    outcomes: Seq<Result<(), Seq<char>>>,
) -> Seq<CommandView>
    decreases outcomes.len(),
{
    if outcomes.len() == 0 || phase == Phase::Finished {
        Seq::empty()
    } else {
        seq![next_command(request, phase, outcomes[0])] + commands_after(
            request,
            next_phase(phase, outcomes[0] is Ok),
            outcomes.drop_first(),
        )
    }
}

/// Each step of a change brings it closer to its end: from any phase but
/// the last, the next phase has fewer steps left.
pub proof fn law_step_progress(phase: Phase, succeeded: bool)
    requires
        phase != Phase::Finished,
    ensures
        steps_left(next_phase(phase, succeeded)) < steps_left(phase),
{
}

/// A failed Docker call ends the change at once with a 500 answer that
/// carries the daemon's message; nothing is recorded.
pub proof fn law_failure_ends_change(request: ContainerRequest, phase: Phase, error: Seq<char>)
    requires
        phase == Phase::AwaitCreate || phase == Phase::AwaitStart || phase == Phase::AwaitStop
            || phase == Phase::AwaitRemove,
    ensures
        next_phase(phase, false) == Phase::Finished,
        next_command(request, phase, Err(error)) == (CommandView::Respond {
            status: STATUS_INTERNAL_SERVER_ERROR,
            message: failure_prefix(phase) + error,
        }),
{
}

/// The audit log is written to only right after a Docker call succeeded,
/// and it records the request's own action and container.
pub proof fn law_record_follows_success(
    request: ContainerRequest,
    phase: Phase,
    outcome: Result<(), Seq<char>>,
)
    requires
        phase != Phase::Finished,
        next_command(request, phase, outcome) is Record,
    ensures
        outcome is Ok,
        phase == Phase::AwaitStart || phase == Phase::AwaitStop || phase == Phase::AwaitRemove,
        next_command(request, phase, outcome) == (CommandView::Record {
            action: action_label(request),
            container_name: request_name(request),
        }),
{
}

/// A container is started only once its creation succeeded.
pub proof fn law_start_follows_create(
    request: ContainerRequest,
    phase: Phase,
    outcome: Result<(), Seq<char>>,
)
    requires
        phase != Phase::Finished,
        next_command(request, phase, outcome) is Docker,
    ensures
        phase == Phase::AwaitCreate,
        outcome is Ok,
        next_command(request, phase, outcome) == CommandView::Docker(
            DockerCallView::StartContainer { name: request_name(request) },
        ),
{
}

/// A change is answered as done only after it has been recorded.
pub proof fn law_success_answer_follows_record(
    request: ContainerRequest,
    phase: Phase,
    outcome: Result<(), Seq<char>>,
)
    requires
        phase != Phase::Finished,
        next_command(request, phase, outcome) matches CommandView::Respond { status, .. } && status
            != STATUS_INTERNAL_SERVER_ERROR,
    ensures
        phase == Phase::AwaitRecord,
        next_command(request, phase, outcome) == success_reply(request),
{
}

/// From `AwaitRecord` on, nothing more is recorded.
proof fn lemma_no_record_after_recording(
    request: ContainerRequest,
    outcomes: Seq<Result<(), Seq<char>>>,
    k: int,
)
    requires
        0 <= k < commands_after(request, Phase::AwaitRecord, outcomes).len(),
    ensures
        !(commands_after(request, Phase::AwaitRecord, outcomes)[k] is Record),
{
    reveal_with_fuel(commands_after, 2);
}

/// Over a whole change: it gives at most as many commands as it has steps
/// left; an answer is always its last command; it records at most once;
/// and it records only when every call before had succeeded.
pub proof fn law_change_protocol(
    request: ContainerRequest,
    phase: Phase,
    outcomes: Seq<Result<(), Seq<char>>>,
)
    ensures
        commands_after(request, phase, outcomes).len() <= steps_left(phase),
        commands_after(request, phase, outcomes).len() <= outcomes.len(),
        forall|k: int|
            0 <= k < commands_after(request, phase, outcomes).len() && #[trigger] commands_after(
                request,
                phase,
                outcomes,
            )[k] is Respond ==> k == commands_after(request, phase, outcomes).len() - 1,
        forall|j: int, k: int|
            0 <= j < k < commands_after(request, phase, outcomes).len() && #[trigger] commands_after(
                request,
                phase,
                outcomes,
            )[j] is Record ==> !(#[trigger] commands_after(request, phase, outcomes)[k] is Record),
        forall|j: int, k: int|
            0 <= j <= k < commands_after(request, phase, outcomes).len() && #[trigger] commands_after(
                request,
                phase,
                outcomes,
            )[k] is Record ==> #[trigger] outcomes[j] is Ok,
    decreases outcomes.len(),
{
    let cmds = commands_after(request, phase, outcomes);
    if outcomes.len() == 0 || phase == Phase::Finished {
    } else {
        let next = next_phase(phase, outcomes[0] is Ok);
        let rest_outcomes = outcomes.drop_first();
        let rest = commands_after(request, next, rest_outcomes);
        law_change_protocol(request, next, rest_outcomes);
        assert(cmds == seq![next_command(request, phase, outcomes[0])] + rest);
        assert(outcomes[0] is Err ==> next == Phase::Finished);
        assert(cmds[0] is Respond ==> next == Phase::Finished);
        assert(cmds[0] is Record ==> next == Phase::AwaitRecord);
        assert forall|k: int| 0 <= k < cmds.len() && #[trigger] cmds[k] is Respond implies k == cmds.len()
            - 1 by {
            if k > 0 {
                assert(rest[k - 1] is Respond);
            }
        }
        assert forall|j: int, k: int|
            0 <= j < k < cmds.len() && #[trigger] cmds[j] is Record implies !(
            #[trigger] cmds[k] is Record) by {
            if j == 0 {
                lemma_no_record_after_recording(request, rest_outcomes, k - 1);
                assert(cmds[k] == rest[k - 1]);
            } else {
                assert(cmds[j] == rest[j - 1]);
                assert(cmds[k] == rest[k - 1]);
            }
        }
        assert forall|j: int, k: int|
            0 <= j <= k < cmds.len() && #[trigger] cmds[k] is Record implies #[trigger] outcomes[j] is Ok by {
            if k > 0 {
                assert(cmds[k] == rest[k - 1]);
                if j > 0 {
                    assert(outcomes[j] == rest_outcomes[j - 1]);
                }
            }
        }
    }
}

/// What the program's `INSERT INTO audit_log` does to the log `before`,
/// leaving `after`: on success it adds one entry with the given action and
/// container, whose id is larger than every id before it (the id
/// autoincrements); a failure changes nothing.
pub open spec fn insert_audit(
    before: Seq<AuditRecord>,
    action: Seq<char>,
    container_name: Seq<char>,
    outcome: Result<(), Seq<char>>,
    after: Seq<AuditRecord>,
) -> bool {
    match outcome {
        Ok(()) => {
            &&& after.len() == before.len() + 1
            &&& after.take(before.len() as int) == before
            &&& after.last().action == action
            &&& after.last().container_name == container_name
            &&& forall|i: int| 0 <= i < before.len() ==> #[trigger] before[i].id < after.last().id
        },
        Err(_) => after == before,
    }
}

/// `rows` is an answer to the program's `SELECT ... ORDER BY id DESC LIMIT
/// ?` bound to `RECENT_LIMIT`: at most that many entries of the log, by
/// falling id, and no entry left out has a larger id than the last one
/// listed.
pub open spec fn newest_audit_entries(log: Seq<AuditRecord>, rows: Seq<AuditRecord>) -> bool {
    &&& rows.len() == if log.len() < RECENT_LIMIT {
        log.len()
    } else {
        RECENT_LIMIT as nat
    }
    &&& forall|k: int| 0 <= k < rows.len() ==> log.contains(#[trigger] rows[k])
    &&& forall|k: int, l: int| 0 <= k < l < rows.len() ==> #[trigger] rows[l].id < #[trigger] rows[k].id
    &&& forall|i: int|
        0 <= i < log.len() && !rows.contains(#[trigger] log[i]) ==> log[i].id < rows.last().id
}

/// After a container was stopped and the stop recorded, the audit log is
/// answered with that stop at its head, as long as nothing else was
/// written to the log since.
pub proof fn law_stop_heads_audit_log(
    request: ContainerRequest,
    before: Seq<AuditRecord>,
    after: Seq<AuditRecord>,
    rows: Seq<AuditRecord>,
)
    requires
        request is Stop,
        next_command(request, Phase::AwaitStop, Ok(())) matches CommandView::Record {
            action,
            container_name,
        } && insert_audit(before, action, container_name, Ok(()), after),
        newest_audit_entries(after, rows),
    ensures
        next_phase(Phase::AwaitStop, true) == Phase::AwaitRecord,
        logs_answer(Ok(rows)) matches Ok(listed) && listed.len() > 0 && listed[0].action == "stop"@
            && listed[0].container_name == request_name(request),
{
    let entry = after.last();
    let n = before.len() as int;
    assert(after[n] == entry);
    assert(rows.len() > 0);
    assert forall|i: int| 0 <= i < n implies #[trigger] after[i] == before[i] by {
        assert(after.take(n)[i] == after[i]);
    }
    if rows[0] != entry {
        assert(after.contains(rows[0]));
        let i0 = choose|i: int| 0 <= i < after.len() && after[i] == rows[0];
        assert(i0 != n);
        assert(rows[0].id < entry.id);
        if rows.contains(entry) {
            let k = choose|k: int| 0 <= k < rows.len() && rows[k] == entry;
            assert(k != 0);
            assert(rows[k].id < rows[0].id);
        } else {
            assert(!rows.contains(after[n]));
            assert(entry.id < rows.last().id);
            if rows.len() > 1 {
                assert(rows[rows.len() - 1].id < rows[0].id);
            }
        }
    }
}

/// A listed container shows Docker's id, image and state unchanged (empty
/// when Docker gave none), and its first name with the leading slashes,
/// and only those, taken off.
pub proof fn law_listed_fields(info: ContainerInfo, summary: ContainerSummary)
    requires
        lists(info, summary),
    ensures
        summary.id matches Some(s) ==> info.id@ == s@,
        summary.id is None ==> info.id@.len() == 0,
        summary.image matches Some(s) ==> info.image@ == s@,
        summary.image is None ==> info.image@.len() == 0,
        summary.state matches Some(s) ==> info.state@ == s@,
        summary.state is None ==> info.state@.len() == 0,
        info.name@.len() <= first_name(summary.names).len(),
        info.name@ == first_name(summary.names).skip(
            first_name(summary.names).len() - info.name@.len(),
        ),
        forall|j: int|
            0 <= j < first_name(summary.names).len() - info.name@.len() ==> #[trigger] first_name(
                summary.names,
            )[j] == '/',
        info.name@.len() == 0 || info.name@[0] != '/',
        summary.names matches Some(v) ==> (v@.len() > 0 && v@[0]@.len() > 0 && v@[0]@[0] != '/'
            ==> info.name@ == v@[0]@),
{
    crate::text::law_trim_leading_slashes(first_name(summary.names));
    match summary.names {
        Some(v) => if v@.len() > 0 && v@[0]@.len() > 0 && v@[0]@[0] != '/' {
            crate::text::law_trim_unique(v@[0]@, 0, v@[0]@);
        },
        None => {},
    }
}

/// An authorized request to create a container first asks Docker to create
/// it under the requested name from the requested image, image text
/// unchanged, and then waits for that call.
pub proof fn law_create_asks_for_request(name: String, image: String)
    ensures
        first_call(ContainerRequest::Create { name, image }) == (DockerCallView::CreateContainer {
            name: name@,
            image: image@,
        }),
        first_phase(ContainerRequest::Create { name, image }) == Phase::AwaitCreate,
{
}

/// An authorized request to stop a container first asks Docker to stop
/// exactly that container, with a ten-second grace period.
pub proof fn law_stop_asks_for_stop(name: String)
    ensures
        first_call(ContainerRequest::Stop { name }) == (DockerCallView::StopContainer {
            name: name@,
            timeout_secs: 10,
        }),
        first_phase(ContainerRequest::Stop { name }) == Phase::AwaitStop,
        action_label(ContainerRequest::Stop { name }) == "stop"@,
{
}

/// An authorized request to remove a container first asks Docker to remove
/// exactly that container, forced, so that a running container goes too.
pub proof fn law_remove_is_forced(name: String)
    ensures
        first_call(ContainerRequest::Remove { name }) == (DockerCallView::RemoveContainer {
            name: name@,
            force: true,
        }),
        first_phase(ContainerRequest::Remove { name }) == Phase::AwaitRemove,
        action_label(ContainerRequest::Remove { name }) == "remove"@,
{
}

} // verus!
