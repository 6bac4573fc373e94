//! The request dispatcher and the capability registry.
//!
//! A request envelope is routed by method name; every outcome, success or
//! failure, is shaped into one response envelope, and an envelope without a
//! correlation token gets no response at all. Protocol-level failures carry
//! their own numeric codes; every admission-pipeline failure is reported
//! under one application code with its opaque message. An invocation that
//! needs a network transfer is handed out as an explicit pending step whose
//! outcome comes back to a verified judgment.

use vstd::prelude::*;
use vstd::string::StringExecFns;
use crate::errors::QrError;
use crate::pipeline::{admit_headers_spec, admit_response_headers, fetch_failure_spec, FetchFailure};
use crate::strings::str_eq;
use crate::tools::{
    decoder_finish_spec, decoder_start_spec, generator_finish_spec, generator_prepare_spec,
    qr_decoder_schema_spec, qr_generator_schema_spec, DecodeStart, DecodeStartSpec, QrDecoderTool,
    QrGeneratorTool, QrToolName, ToolArgs, ToolArgsView, ToolOutput, ToolOutputSpec,
};

verus! {

/// An optional correlation token's plain value.
pub open spec fn opt_str_view(o: Option<String>) -> Option<Seq<char>> {
    match o {
        Some(s) => Some(s@),
        None => None,
    }
}

/// Clone an optional correlation token.
fn clone_opt_string(o: &Option<String>) -> (r: Option<String>)
    ensures
        opt_str_view(r) == opt_str_view(*o),
{
    match o {
        Some(s) => Some(s.clone()),
        None => None,
    }
}

/// A capability descriptor: stable name, description and input schema.
pub struct ToolDescriptor {
    pub name: String,
    pub description: String,
    pub input_schema: String,
}

/// The plain values a `ToolDescriptor` stands for.
pub struct ToolDescriptorView {
    pub name: Seq<char>,
    pub description: Seq<char>,
    pub input_schema: Seq<char>,
}

impl View for ToolDescriptor {
    type V = ToolDescriptorView;

    open spec fn view(&self) -> ToolDescriptorView {
        ToolDescriptorView {
            name: self.name@,
            description: self.description@,
            input_schema: self.input_schema@,
        }
    }
}

/// A registered capability: the closed set the server can serve.
pub enum RegisteredTool {
    Generator(QrGeneratorTool),
    Decoder(QrDecoderTool),
}

impl RegisteredTool {
    /// The capability's stable wire name.
    pub open spec fn name_spec(self) -> Seq<char> {
        match self {
            RegisteredTool::Generator(_) => QrToolName::Generate.name_spec(),
            RegisteredTool::Decoder(_) => QrToolName::Decode.name_spec(),
        }
    }

    /// The capability's advertised descriptor.
    pub open spec fn descriptor_spec(self) -> ToolDescriptorView {
        match self {
            RegisteredTool::Generator(_) => ToolDescriptorView {
                name: "generate_qr_code"@,
                description: "Generate QR code from text or URL input"@,
                input_schema: qr_generator_schema_spec(),
            },
            RegisteredTool::Decoder(_) => ToolDescriptorView {
                name: "decode_qr_code"@,
                description: "Decode QR code from base64 image data or HTTPS URL (trusted domains only)"@,
                input_schema: qr_decoder_schema_spec(),
            },
        }
    }

    /// The capability's stable wire name.
    pub fn name(&self) -> (r: &'static str)
        ensures
            r@ == self.name_spec(),
    {
        match self {
            RegisteredTool::Generator(t) => t.name(),
            RegisteredTool::Decoder(t) => t.name(),
        }
    }

    /// The capability's advertised descriptor.
    pub fn descriptor(&self) -> (r: ToolDescriptor)
        ensures
            r@ == self.descriptor_spec(),
    {
        match self {
            RegisteredTool::Generator(t) => ToolDescriptor {
                name: String::from_str(t.name()),
                description: String::from_str(t.description()),
                input_schema: t.input_schema(),
            },
            RegisteredTool::Decoder(t) => ToolDescriptor {
                name: String::from_str(t.name()),
                description: String::from_str(t.description()),
                input_schema: t.input_schema(),
            },
        }
    }
}

/// The tool a name maps to: the first registration with that name.
pub open spec fn lookup_tool(tools: Seq<RegisteredTool>, name: Seq<char>) -> Option<RegisteredTool>
    decreases tools.len(),
{
    if tools.len() == 0 {
        None
    } else if tools[0].name_spec() == name {
        Some(tools[0])
    } else {
        lookup_tool(tools.drop_first(), name)
    }
}

/// Replacing the first registration that carries a name keeps every other
/// name's mapping and maps that name to the replacement.
proof fn lemma_lookup_update(tools: Seq<RegisteredTool>, i: int, tool: RegisteredTool)
    requires
        0 <= i < tools.len(),
        forall|j: int| 0 <= j < i ==> tools[j].name_spec() != tool.name_spec(),
        tools[i].name_spec() == tool.name_spec(),
    ensures
        lookup_tool(tools.update(i, tool), tool.name_spec()) == Some(tool),
        forall|n: Seq<char>|
            n != tool.name_spec() ==> lookup_tool(tools.update(i, tool), n) == lookup_tool(
                tools,
                n,
            ),
    decreases i,
{
    let up = tools.update(i, tool);
    if i == 0 {
        assert(up[0] == tool);
        assert(up.drop_first() =~= tools.drop_first());
        assert forall|n: Seq<char>| n != tool.name_spec() implies lookup_tool(up, n)
            == lookup_tool(tools, n) by {
            assert(tools[0].name_spec() != n);
        }
    } else {
        assert(up[0] == tools[0]);
        assert(up.drop_first() =~= tools.drop_first().update(i - 1, tool));
        assert forall|j: int| 0 <= j < i - 1 implies #[trigger] tools.drop_first()[j].name_spec()
            != tool.name_spec() by {
            assert(tools.drop_first()[j] == tools[j + 1]);
        }
        lemma_lookup_update(tools.drop_first(), i - 1, tool);
        assert(lookup_tool(up, tool.name_spec()) == Some(tool));
        assert forall|n: Seq<char>| n != tool.name_spec() implies lookup_tool(up, n)
            == lookup_tool(tools, n) by {
            if tools[0].name_spec() != n {
                assert(lookup_tool(up, n) == lookup_tool(up.drop_first(), n));
                assert(lookup_tool(tools, n) == lookup_tool(tools.drop_first(), n));
            }
        }
    }
}

/// Appending a registration under a fresh name keeps every other name's
/// mapping and maps the fresh name to it.
proof fn lemma_lookup_push(tools: Seq<RegisteredTool>, tool: RegisteredTool)
    requires
        forall|j: int| 0 <= j < tools.len() ==> tools[j].name_spec() != tool.name_spec(),
    ensures
        lookup_tool(tools.push(tool), tool.name_spec()) == Some(tool),
        forall|n: Seq<char>|
            n != tool.name_spec() ==> lookup_tool(tools.push(tool), n) == lookup_tool(tools, n),
    decreases tools.len(),
{
    let p = tools.push(tool);
    if tools.len() == 0 {
        assert(p[0] == tool);
        assert(p.drop_first() =~= Seq::<RegisteredTool>::empty());
        assert forall|n: Seq<char>| n != tool.name_spec() implies lookup_tool(p, n) == lookup_tool(
            tools,
            n,
        ) by {
            assert(lookup_tool(p, n) == lookup_tool(p.drop_first(), n));
        }
    } else {
        assert(p[0] == tools[0]);
        assert(p.drop_first() =~= tools.drop_first().push(tool));
        assert forall|j: int|
            0 <= j < tools.drop_first().len() implies #[trigger] tools.drop_first()[j].name_spec()
            != tool.name_spec() by {
            assert(tools.drop_first()[j] == tools[j + 1]);
        }
        lemma_lookup_push(tools.drop_first(), tool);
        assert forall|n: Seq<char>| n != tool.name_spec() implies lookup_tool(p, n) == lookup_tool(
            tools,
            n,
        ) by {
            if tools[0].name_spec() != n {
                assert(lookup_tool(p, n) == lookup_tool(p.drop_first(), n));
                assert(lookup_tool(tools.drop_first().push(tool), n) == lookup_tool(
                    tools.drop_first(),
                    n,
                ));
            }
        }
    }
}

/// The capability registry and dispatcher. The capability set is fixed at
/// startup; dispatch never mutates it.
pub struct McpServer {
    tools: Vec<RegisteredTool>,
}

impl McpServer {
    /// The registered capabilities, in registration order.
    pub closed spec fn tools_spec(self) -> Seq<RegisteredTool> {
        self.tools@
    }

    /// A registry with nothing registered.
    pub fn new() -> (r: McpServer)
        ensures
            r.tools_spec() == Seq::<RegisteredTool>::empty(),
    {
        McpServer { tools: Vec::new() }
    }

    /// Register a capability: the name now maps to it, a previous
    /// registration under the same name is replaced, and every other name's
    /// mapping is kept.
    pub fn register_tool(&mut self, tool: RegisteredTool)
        ensures
            lookup_tool(final (self).tools_spec(), tool.name_spec()) == Some(tool),
            forall|n: Seq<char>|
                n != tool.name_spec() ==> lookup_tool(final (self).tools_spec(), n) == lookup_tool(
                    old(self).tools_spec(),
                    n,
                ),
            final (self).tools_spec().len() <= old(self).tools_spec().len() + 1,
    {
        let ghost tv = tool;
        let name = tool.name();
        let n = self.tools.len();
        let mut i: usize = 0;
        while i < n
            invariant
                i <= n,
                n == self.tools@.len(),
                self.tools@ == old(self).tools@,
                name@ == tv.name_spec(),
                tool == tv,
                forall|j: int| 0 <= j < i ==> self.tools@[j].name_spec() != tv.name_spec(),
            decreases n - i,
        {
            if str_eq(self.tools[i].name(), name) {
                self.tools.set(i, tool);
                proof {
                    lemma_lookup_update(old(self).tools@, i as int, tv);
                }
                return ;
            }
            i += 1;
        }
        self.tools.push(tool);
        proof {
            lemma_lookup_push(old(self).tools@, tv);
        }
    }

    /// The registration a name maps to, if any.
    fn lookup(&self, name: &str) -> (r: Option<&RegisteredTool>)
        ensures
            match r {
                Some(t) => lookup_tool(self.tools_spec(), name@) == Some(*t),
                None => lookup_tool(self.tools_spec(), name@) is None,
            },
    {
        let n = self.tools.len();
        proof {
            assert(self.tools@.subrange(0, n as int) =~= self.tools@);
        }
        let mut i: usize = 0;
        while i < n
            invariant
                i <= n,
                n == self.tools@.len(),
                lookup_tool(self.tools@, name@) == lookup_tool(
                    self.tools@.subrange(i as int, n as int),
                    name@,
                ),
            decreases n - i,
        {
            let ghost pre = self.tools@.subrange(i as int, n as int);
            if str_eq(self.tools[i].name(), name) {
                proof {
                    assert(pre[0] == self.tools@[i as int]);
                }
                return Some(&self.tools[i]);
            }
            proof {
                assert(pre[0] == self.tools@[i as int]);
                assert(pre.drop_first() =~= self.tools@.subrange(i + 1, n as int));
            }
            i += 1;
        }
        proof {
            assert(self.tools@.subrange(n as int, n as int) =~= Seq::<RegisteredTool>::empty());
        }
        None
    }
}

/// The parameters of an invoke-capability request that dispatch reads: the
/// capability name and the optional arguments value, each present only when
/// the inbound value carried it in the expected shape.
pub struct CallParams {
    pub name: Option<String>,
    pub arguments: Option<ToolArgs>,
}

/// The plain values a `CallParams` stands for.
pub struct CallParamsView {
    pub name: Option<Seq<char>>,
    pub arguments: Option<ToolArgsView>,
}

impl View for CallParams {
    type V = CallParamsView;

    open spec fn view(&self) -> CallParamsView {
        CallParamsView {
            name: opt_str_view(self.name),
            arguments: match self.arguments {
                Some(a) => Some(a@),
                None => None,
            },
        }
    }
}

/// One inbound request envelope: an opaque correlation token (present means
/// a response is owed), the method name, and the optional parameters.
pub struct RequestEnvelope {
    pub id: Option<String>,
    pub method: String,
    pub params: Option<CallParams>,
}

/// The plain values a `RequestEnvelope` stands for.
pub struct RequestView {
    pub id: Option<Seq<char>>,
    pub method: Seq<char>,
    pub params: Option<CallParamsView>,
}

impl View for RequestEnvelope {
    type V = RequestView;

    open spec fn view(&self) -> RequestView {
        RequestView {
            id: opt_str_view(self.id),
            method: self.method@,
            params: match self.params {
                Some(p) => Some(p@),
                None => None,
            },
        }
    }
}

/// A protocol- or application-level failure as reported to the caller.
#[derive(Debug)]
pub struct ErrorBody {
    pub code: i64,
    pub message: String,
}

/// The plain values an `ErrorBody` stands for.
pub struct ErrorView {
    pub code: int,
    pub message: Seq<char>,
}

impl View for ErrorBody {
    type V = ErrorView;

    open spec fn view(&self) -> ErrorView {
        ErrorView { code: self.code as int, message: self.message@ }
    }
}

/// The static metadata the initialize method returns.
pub struct InitializeInfo {
    pub protocol_version: String,
    pub server_name: String,
    pub server_version: String,
}

/// The plain values an `InitializeInfo` stands for.
pub struct InitView {
    pub protocol_version: Seq<char>,
    pub server_name: Seq<char>,
    pub server_version: Seq<char>,
}

impl View for InitializeInfo {
    type V = InitView;

    open spec fn view(&self) -> InitView {
        InitView {
            protocol_version: self.protocol_version@,
            server_name: self.server_name@,
            server_version: self.server_version@,
        }
    }
}

/// A successful response's payload.
pub enum ResponsePayload {
    Initialize(InitializeInfo),
    ToolsList(Vec<ToolDescriptor>),
    ToolResult(ToolOutput),
}

/// The plain values a `ResponsePayload` stands for.
pub enum PayloadView {
    Initialize(InitView),
    ToolsList(Seq<ToolDescriptorView>),
    ToolResult(ToolOutputSpec),
}

impl View for ResponsePayload {
    type V = PayloadView;

    open spec fn view(&self) -> PayloadView {
        match self {
            ResponsePayload::Initialize(i) => PayloadView::Initialize(i@),
            ResponsePayload::ToolsList(ds) => PayloadView::ToolsList(
                ds@.map_values(|d: ToolDescriptor| d@),
            ),
            ResponsePayload::ToolResult(o) => PayloadView::ToolResult(o@),
        }
    }
}

/// One outbound response envelope: the echoed correlation token and the
/// outcome.
pub struct ResponseEnvelope {
    pub id: Option<String>,
    pub outcome: Result<ResponsePayload, ErrorBody>,
}

/// The plain values a `ResponseEnvelope` stands for.
pub struct ResponseView {
    pub id: Option<Seq<char>>,
    pub outcome: Result<PayloadView, ErrorView>,
}

impl View for ResponseEnvelope {
    type V = ResponseView;

    open spec fn view(&self) -> ResponseView {
        ResponseView {
            id: opt_str_view(self.id),
            outcome: match &self.outcome {
                Ok(p) => Ok(p@),
                Err(e) => Err(e@),
            },
        }
    }
}

/// What dispatch asks of the embedding program: a complete response, or a
/// pending network step whose outcome finishes the response.
pub enum DispatchOutcome {
    /// The response is complete.
    Respond(ResponseEnvelope),
    /// Upload these PNG bytes under the upload timeout, then finish with
    /// the answer.
    Upload { id: Option<String>, png: Vec<u8> },
    /// Fetch this admitted URL under the fetch timeout, then finish with
    /// the response.
    Fetch { id: Option<String>, url: String },
}

/// The plain values a `DispatchOutcome` stands for.
pub enum DispatchView {
    Respond(ResponseView),
    Upload { id: Option<Seq<char>>, png: Seq<u8> },
    Fetch { id: Option<Seq<char>>, url: Seq<char> },
}

impl View for DispatchOutcome {
    type V = DispatchView;

    open spec fn view(&self) -> DispatchView {
        match self {
            DispatchOutcome::Respond(r) => DispatchView::Respond(r@),
            DispatchOutcome::Upload { id, png } => DispatchView::Upload {
                id: opt_str_view(*id),
                png: png@,
            },
            DispatchOutcome::Fetch { id, url } => DispatchView::Fetch {
                id: opt_str_view(*id),
                url: url@,
            },
        }
    }
}

/// A complete error response.
pub open spec fn error_response(id: Option<Seq<char>>, code: int, message: Seq<char>) -> DispatchView {
    DispatchView::Respond(ResponseView { id, outcome: Err(ErrorView { code, message }) })
}

/// The static initialize metadata.
pub open spec fn init_info_spec() -> InitView {
    InitView { protocol_version: "2024-11-05"@, server_name: "qrmax"@, server_version: "0.1.0"@ }
}

/// The advertised descriptors, in registration order.
pub open spec fn descriptors_spec(tools: Seq<RegisteredTool>) -> Seq<ToolDescriptorView> {
    tools.map_values(|t: RegisteredTool| t.descriptor_spec())
}

/// Dispatch of an invoke-capability request: absent parameters, then a
/// missing capability name, are protocol errors; an unknown capability is
/// named in its error; a known one runs its admission flow, and its failure
/// is reported under the application code with its opaque message.
pub open spec fn tool_call_spec(
    tools: Seq<RegisteredTool>,
    id: Option<Seq<char>>,
    params: Option<CallParamsView>,
) -> DispatchView {
    match params {
        None => error_response(id, -32602, "Invalid params"@),
        Some(p) => match p.name {
            None => error_response(id, -32602, "Missing tool name"@),
            Some(name) => match lookup_tool(tools, name) {
                None => error_response(id, -32601, "Tool '"@ + name + "' not found"@),
                Some(RegisteredTool::Generator(_)) => match generator_prepare_spec(p.arguments) {
                    Err(e) => error_response(id, -32000, e.message_spec()),
                    Ok(png) => DispatchView::Upload { id, png },
                },
                Some(RegisteredTool::Decoder(_)) => match decoder_start_spec(p.arguments) {
                    Err(e) => error_response(id, -32000, e.message_spec()),
                    Ok(DecodeStartSpec::Fetch(u)) => DispatchView::Fetch { id, url: u },
                    Ok(DecodeStartSpec::Done(o)) => DispatchView::Respond(
                        ResponseView { id, outcome: Ok(PayloadView::ToolResult(o)) },
                    ),
                },
            },
        },
    }
}

/// The dispatcher as a pure function of registry and envelope: three
/// recognized methods, every other method name is unknown.
pub open spec fn dispatch_spec(tools: Seq<RegisteredTool>, req: RequestView) -> DispatchView {
    if req.method == "initialize"@ {
        DispatchView::Respond(
            ResponseView { id: req.id, outcome: Ok(PayloadView::Initialize(init_info_spec())) },
        )
    } else if req.method == "tools/list"@ {
        DispatchView::Respond(
            ResponseView {
                id: req.id,
                outcome: Ok(PayloadView::ToolsList(descriptors_spec(tools))),
            },
        )
    } else if req.method == "tools/call"@ {
        tool_call_spec(tools, req.id, req.params)
    } else {
        error_response(req.id, -32601, "Method not found"@)
    }
}

/// A tool invocation's outcome shaped as a response: success carries the
/// result, failure the application code with the opaque message.
pub open spec fn wrap_tool_result_spec(
    id: Option<Seq<char>>,
    r: Result<ToolOutputSpec, QrError>,
) -> ResponseView {
    match r {
        Ok(o) => ResponseView { id, outcome: Ok(PayloadView::ToolResult(o)) },
        Err(e) => ResponseView {
            id,
            outcome: Err(ErrorView { code: -32000, message: e.message_spec() }),
        },
    }
}

/// Build a complete error response envelope.
fn make_error(id: Option<String>, code: i64, message: String) -> (r: ResponseEnvelope)
    ensures
        r@ == (ResponseView {
            id: opt_str_view(id),
            outcome: Err(ErrorView { code: code as int, message: message@ }),
        }),
{
    ResponseEnvelope { id, outcome: Err(ErrorBody { code, message }) }
}

impl McpServer {
    /// Route one request envelope by method name; the outcome is either a
    /// complete response or the pending network step of an invocation.
    pub fn handle_request(&self, req: &RequestEnvelope) -> (r: DispatchOutcome)
        ensures
            r@ == dispatch_spec(self.tools_spec(), req@),
    {
        let id = clone_opt_string(&req.id);
        if str_eq(req.method.as_str(), "initialize") {
            DispatchOutcome::Respond(self.handle_initialize(id))
        } else if str_eq(req.method.as_str(), "tools/list") {
            DispatchOutcome::Respond(self.handle_tools_list(id))
        } else if str_eq(req.method.as_str(), "tools/call") {
            let params: Option<&CallParams> = match &req.params {
                Some(p) => Some(p),
                None => None,
            };
            self.handle_tools_call(id, params)
        } else {
            DispatchOutcome::Respond(
                make_error(id, -32601, String::from_str("Method not found")),
            )
        }
    }

    /// The static protocol and server metadata; no side effects.
    fn handle_initialize(&self, id: Option<String>) -> (r: ResponseEnvelope)
        ensures
            r@ == (ResponseView {
                id: opt_str_view(id),
                outcome: Ok(PayloadView::Initialize(init_info_spec())),
            }),
    {
        ResponseEnvelope {
            id,
            outcome: Ok(
                ResponsePayload::Initialize(
                    InitializeInfo {
                        protocol_version: String::from_str("2024-11-05"),
                        server_name: String::from_str("qrmax"),
                        server_version: String::from_str("0.1.0"),
                    },
                ),
            ),
        }
    }

    /// The descriptor of every registered capability, in registration
    /// order.
    fn handle_tools_list(&self, id: Option<String>) -> (r: ResponseEnvelope)
        ensures
            r@ == (ResponseView {
                id: opt_str_view(id),
                outcome: Ok(PayloadView::ToolsList(descriptors_spec(self.tools_spec()))),
            }),
    {
        let n = self.tools.len();
        let mut ds: Vec<ToolDescriptor> = Vec::new();
        let mut i: usize = 0;
        while i < n
            invariant
                i <= n,
                n == self.tools@.len(),
                ds@.len() == i,
                forall|j: int| 0 <= j < i ==> #[trigger] ds@[j]@ == self.tools@[j].descriptor_spec(),
            decreases n - i,
        {
            let d = self.tools[i].descriptor();
            ds.push(d);
            i += 1;
        }
        proof {
            assert(ds@.map_values(|d: ToolDescriptor| d@) =~= descriptors_spec(self.tools@));
        }
        ResponseEnvelope { id, outcome: Ok(ResponsePayload::ToolsList(ds)) }
    }

    /// Dispatch an invoke-capability request to the named capability.
    fn handle_tools_call(&self, id: Option<String>, params: Option<&CallParams>) -> (r:
        DispatchOutcome)
        ensures
            r@ == tool_call_spec(
                self.tools_spec(),
                opt_str_view(id),
                (match params {
                    Some(p) => Some(p@),
                    None => None,
                }),
            ),
    {
        let p = match params {
            None => {
                return DispatchOutcome::Respond(
                    make_error(id, -32602, String::from_str("Invalid params")),
                );
            },
            Some(p) => p,
        };
        let name = match &p.name {
            None => {
                return DispatchOutcome::Respond(
                    make_error(id, -32602, String::from_str("Missing tool name")),
                );
            },
            Some(s) => s,
        };
        let args: Option<&ToolArgs> = match &p.arguments {
            Some(a) => Some(a),
            None => None,
        };
        match self.lookup(name.as_str()) {
            None => {
                let message = String::from_str("Tool '").concat(name.as_str()).concat(
                    "' not found",
                );
                DispatchOutcome::Respond(make_error(id, -32601, message))
            },
            Some(RegisteredTool::Generator(t)) => match t.prepare(args) {
                Err(e) => DispatchOutcome::Respond(make_error(id, -32000, e.message())),
                Ok(png) => DispatchOutcome::Upload { id, png },
            },
            Some(RegisteredTool::Decoder(t)) => match t.start(args) {
                Err(e) => DispatchOutcome::Respond(make_error(id, -32000, e.message())),
                Ok(DecodeStart::Fetch(u)) => DispatchOutcome::Fetch { id, url: u },
                Ok(DecodeStart::Done(o)) => DispatchOutcome::Respond(
                    ResponseEnvelope { id, outcome: Ok(ResponsePayload::ToolResult(o)) },
                ),
            },
        }
    }

    /// Route one envelope, owing a response exactly when it carries a
    /// correlation token; an envelope without one is silently dropped.
    pub fn process_envelope(&self, req: &RequestEnvelope) -> (r: Option<DispatchOutcome>)
        ensures
            match r {
                Some(o) => req@.id is Some && o@ == dispatch_spec(self.tools_spec(), req@),
                None => req@.id is None,
            },
    {
        match &req.id {
            None => None,
            Some(_) => Some(self.handle_request(req)),
        }
    }
}

/// Finish a pending upload: judge the collaborator's answer (`None` for a
/// transport failure) and shape the response.
pub fn finish_upload(id: Option<String>, upload_body: Option<&str>) -> (r: ResponseEnvelope)
    ensures
        r@ == wrap_tool_result_spec(
            opt_str_view(id),
            generator_finish_spec(
                (match upload_body {
                    Some(b) => Some(b@),
                    None => None,
                }),
            ),
        ),
{
    let tool = QrGeneratorTool;
    match tool.finish(upload_body) {
        Ok(o) => ResponseEnvelope { id, outcome: Ok(ResponsePayload::ToolResult(o)) },
        Err(e) => make_error(id, -32000, e.message()),
    }
}

/// Judge a pending fetch's status and headers before its body is read:
/// `Some` is the finished error response, `None` means read the body.
pub fn finish_fetch_headers(
    id: Option<String>,
    status_success: bool,
    content_type: Option<&str>,
    content_length: Option<&str>,
) -> (r: Option<ResponseEnvelope>)
    ensures
        ({
            let judgment = admit_headers_spec(
                status_success,
                (match content_type {
                    Some(c) => Some(c@),
                    None => None,
                }),
                (match content_length {
                    Some(l) => Some(l@),
                    None => None,
                }),
            );
            match r {
                None => judgment is Ok,
                Some(resp) => judgment matches Err(e) && resp@ == (ResponseView {
                    id: opt_str_view(id),
                    outcome: Err(ErrorView { code: -32000, message: e.message_spec() }),
                }),
            }
        }),
{
    match admit_response_headers(status_success, content_type, content_length) {
        Ok(()) => None,
        Err(e) => Some(make_error(id, -32000, e.message())),
    }
}

/// Finish a pending fetch with the received body: the authoritative size
/// check, then the decode, shaped as the response.
pub fn finish_fetch_body(id: Option<String>, bytes: Vec<u8>) -> (r: ResponseEnvelope)
    ensures
        r@ == wrap_tool_result_spec(opt_str_view(id), decoder_finish_spec(bytes@)),
{
    let tool = QrDecoderTool;
    match tool.finish_fetched(bytes) {
        Ok(o) => ResponseEnvelope { id, outcome: Ok(ResponsePayload::ToolResult(o)) },
        Err(e) => make_error(id, -32000, e.message()),
    }
}

/// Finish a pending fetch that failed in transport, shaped as the response.
pub fn finish_fetch_failure(id: Option<String>, f: FetchFailure) -> (r: ResponseEnvelope)
    ensures
        r@ == (ResponseView {
            id: opt_str_view(id),
            outcome: Err(ErrorView { code: -32000, message: fetch_failure_spec(f).message_spec() }),
        }),
{
    let e = crate::pipeline::fetch_failure_error(f);
    make_error(id, -32000, e.message())
}

/// The server with the two capabilities registered.
pub fn create_server() -> (r: McpServer)
    ensures
        lookup_tool(r.tools_spec(), QrToolName::Generate.name_spec()) == Some(
            RegisteredTool::Generator(QrGeneratorTool),
        ),
        lookup_tool(r.tools_spec(), QrToolName::Decode.name_spec()) == Some(
            RegisteredTool::Decoder(QrDecoderTool),
        ),
{
    let mut server = McpServer::new();
    server.register_tool(RegisteredTool::Generator(QrGeneratorTool));
    server.register_tool(RegisteredTool::Decoder(QrDecoderTool));
    proof {
        reveal_strlit("generate_qr_code");
        reveal_strlit("decode_qr_code");
        assert("generate_qr_code"@.len() == 16);
        assert("decode_qr_code"@.len() == 14);
        assert(QrToolName::Generate.name_spec() != QrToolName::Decode.name_spec());
    }
    server
}

} // verus!
