//! Commands turned into requests of the legacy API: each command's query,
//! how its answer is read, and what an upload needs before and after.

use vstd::prelude::*;
use crate::cli::{
    AdvancedArgs, ApiVersion, Commands, CoolingArgs, CoolingCmd, EthArgs, EthCmd, FirmwareArgs,
    FlashArgs, GetSet, ModeCmd, PowerArgs, PowerCmd, UartArgs, UsbArgs, UsbCmd,
};
use crate::json::{Json, get_json_num, json_document};
use crate::progress::{is_success, member_text};
use crate::request::{
    BuildError, Method, ParamView, Payload, Request, Route, header_text, query_view,
    spec_url_from_host,
};
use vstd::string::{StringExecFns, StringSliceAdditionalSpecFns};

verus! {

/// How the payload of an answer is shown.
#[derive(Clone, Copy, PartialEq, Eq, Structural, Debug)]
pub enum Printer {
    /// The string under `result`.
    Outcome,
    /// A table of the controller's properties.
    Info,
    /// Which side of the USB bus is host and which is device.
    UsbStatus,
    /// The text read from a node's UART.
    Uart,
    /// The cooling devices and their speeds.
    Cooling,
    /// Each node's power state.
    PowerStatus,
}

/// Why a command could not be turned into a request.
#[derive(Clone, Copy, PartialEq, Eq, Structural, Debug)]
pub enum CommandError {
    /// Writing to a UART needs `--cmd`.
    MissingCmd,
    /// The command needs `--node`.
    MissingNode,
    /// A node is one of 1 to 4.
    InvalidNode,
    /// Setting a cooling device needs the device and the speed.
    MissingDeviceOrSpeed,
    /// An upload needs the name and size of its file.
    MissingFile,
    /// The controller refused to leave the advanced mode.
    ModeRefused,
}

/// What the caller does once a command has been taken in.
#[derive(Clone, Copy, PartialEq, Eq, Structural, Debug)]
pub enum Plan {
    /// Send the request and show its answer.
    Exchange,
    /// Send the request as it stands; if the controller accepts it, call
    /// `finish_normal` and go on as that says.
    ClearThenReset,
    /// Send the file in one multipart body. Large files are likely to fail
    /// this way: warn the user.
    UploadWhole,
    /// Negotiate a transfer, then stream the file and watch the progress.
    UploadStreamed,
    /// Ask the controller to flash from a file of its own, then watch the
    /// progress.
    FlashLocal,
    /// Read or write the EEPROM on this machine.
    Eeprom,
}

/// Name and size of a file to upload.
#[derive(Debug, PartialEq, Eq)]
pub struct FileInfo {
    pub name: String,
    pub size: u64,
}

/// Why the payload of an answer could not be had.
#[derive(Clone, Copy, PartialEq, Eq, Structural, Debug)]
pub enum ResponseError {
    /// The body is no JSON document.
    NotJson,
    /// The body has no `response` member.
    MissingResponse,
    /// `response` is no array.
    NotAnArray,
    /// `response` is an empty array.
    Empty,
}

/// Why a transfer did not begin.
#[derive(Debug, PartialEq, Eq)]
pub enum TransferError {
    /// The controller answered outside 200..=299; `detail` is the body's
    /// `response` member as JSON text, where it has one.
    Refused { status: u16, body: Vec<u8>, detail: Option<String> },
    /// The body is no JSON document.
    Malformed,
    /// The body holds no number `handle`.
    MissingHandle,
}

/// A command on its way to becoming a request.
#[derive(Debug, PartialEq, Eq)]
pub struct LegacyHandler {
    pub request: Request,
    pub response_printer: Option<Printer>,
    /// Show answers as raw JSON.
    pub json: bool,
    /// The command runs a flow of its own in place of the plain exchange.
    pub skip_request: bool,
    pub version: ApiVersion,
}

/// The kernel name, the machine and the operating system that the
/// program runs on.
#[derive(Debug, PartialEq, Eq)]
pub struct Platform {
    pub sysname: String,
    pub machine: String,
    pub osname: String,
}

/// The user agent: `TPI`, followed by the platform in brackets where it
/// is known.
pub open spec fn spec_user_agent(platform: Option<Platform>) -> Seq<char> {
    match platform {
        None => "TPI"@,
        Some(p) => "TPI ("@ + p.sysname@ + ";"@ + p.machine@ + ";"@ + p.osname@ + ")"@,
    }
}

pub fn user_agent(platform: &Option<Platform>) -> (r: String)
    ensures
        r@ == spec_user_agent(*platform),
{
    match platform {
        None => "TPI".to_owned(),
        Some(p) => {
            let mut text: String = "TPI (".to_owned();
            text.append(p.sysname.as_str());
            text.append(";");
            text.append(p.machine.as_str());
            text.append(";");
            text.append(p.osname.as_str());
            text.append(")");
            text
        },
    }
}

impl CommandError {
    /// The refusal in words.
    pub open spec fn spec_message(self) -> Seq<char> {
        match self {
            CommandError::MissingCmd => "uart set command requires `--cmd` argument."@,
            CommandError::MissingNode => "`--node` argument missing"@,
            CommandError::InvalidNode => "`--node` must be one of 1 to 4"@,
            CommandError::MissingDeviceOrSpeed => "Device and speed arguments are required for the set command"@,
            CommandError::MissingFile => "file_name could not be extracted"@,
            CommandError::ModeRefused => "could not execute Normal mode"@,
        }
    }

    pub fn message(&self) -> (r: &'static str)
        ensures
            r@ == self.spec_message(),
    {
        match self {
            CommandError::MissingCmd => "uart set command requires `--cmd` argument.",
            CommandError::MissingNode => "`--node` argument missing",
            CommandError::InvalidNode => "`--node` must be one of 1 to 4",
            CommandError::MissingDeviceOrSpeed => "Device and speed arguments are required for the set command",
            CommandError::MissingFile => "file_name could not be extracted",
            CommandError::ModeRefused => "could not execute Normal mode",
        }
    }
}

impl ResponseError {
    /// The failure in words.
    pub open spec fn spec_message(self) -> Seq<char> {
        match self {
            ResponseError::NotJson => "error parsing server response"@,
            ResponseError::MissingResponse => "expected 'response' key in JSON payload"@,
            ResponseError::NotAnArray => "API error: `response` is not an array"@,
            ResponseError::Empty => "API error: `response` is empty"@,
        }
    }

    pub fn message(&self) -> (r: &'static str)
        ensures
            r@ == self.spec_message(),
    {
        match self {
            ResponseError::NotJson => "error parsing server response",
            ResponseError::MissingResponse => "expected 'response' key in JSON payload",
            ResponseError::NotAnArray => "API error: `response` is not an array",
            ResponseError::Empty => "API error: `response` is empty",
        }
    }
}

pub open spec fn valid_node(node: u8) -> bool {
    1 <= node <= 4
}

pub open spec fn opt_set() -> Seq<ParamView> {
    seq![ParamView::Pair("opt"@, "set"@)]
}

pub open spec fn opt_get() -> Seq<ParamView> {
    seq![ParamView::Pair("opt"@, "get"@)]
}

pub open spec fn kind(name: Seq<char>) -> Seq<ParamView> {
    seq![ParamView::Pair("type"@, name)]
}

/// The `node` entry: nodes are counted from 0 on the wire.
pub open spec fn node_index(node: u8) -> Seq<ParamView> {
    seq![ParamView::Number("node"@, (node - 1) as u64)]
}

pub open spec fn info_query() -> Seq<ParamView> {
    opt_get() + kind("other"@)
}

pub open spec fn reboot_query() -> Seq<ParamView> {
    opt_set() + kind("reboot"@)
}

pub open spec fn eth_query() -> Seq<ParamView> {
    opt_set() + kind("network"@) + seq![ParamView::Pair("cmd"@, "reset"@)]
}

pub open spec fn progress_query() -> Seq<ParamView> {
    opt_get() + kind("flash"@)
}

pub open spec fn uart_query(args: UartArgs) -> Seq<ParamView> {
    if args.action == GetSet::Get {
        opt_get() + kind("uart"@) + node_index(args.node)
    } else {
        opt_set() + kind("uart"@) + node_index(args.node) + seq![
            ParamView::Pair("cmd"@, args.cmd.unwrap()@),
        ]
    }
}

/// The number of a USB mode: host 0, device 1, flash 2, and 4 more where
/// the bus goes to the controller chip.
pub open spec fn usb_mode(mode: UsbCmd, bmc: bool) -> u64 {
    let base: u64 = match mode {
        UsbCmd::Host => 0,
        UsbCmd::Device => 1,
        _ => 2,
    };
    if bmc {
        (base + 4) as u64
    } else {
        base
    }
}

pub open spec fn usb_query(args: UsbArgs) -> Seq<ParamView> {
    if args.mode == UsbCmd::Status {
        opt_get() + kind("usb"@)
    } else {
        opt_set() + kind("usb"@) + node_index(args.node.unwrap()) + seq![
            ParamView::Number("mode"@, usb_mode(args.mode, args.bmc)),
        ]
    }
}

/// The key that switches one node on or off.
pub open spec fn node_key(node: u8) -> Seq<char> {
    if node == 1 {
        "node1"@
    } else if node == 2 {
        "node2"@
    } else if node == 3 {
        "node3"@
    } else {
        "node4"@
    }
}

pub open spec fn power_query(args: PowerArgs) -> Seq<ParamView> {
    match args.cmd {
        PowerCmd::Status => opt_get() + kind("power"@),
        PowerCmd::Reset => opt_set() + kind("reset"@) + node_index(args.node.unwrap()),
        _ => {
            let bit = if args.cmd == PowerCmd::On {
                "1"@
            } else {
                "0"@
            };
            match args.node {
                Some(node) => opt_set() + kind("power"@) + seq![
                    ParamView::Pair(node_key(node), bit),
                ],
                None => opt_set() + kind("power"@) + seq![
                    ParamView::Pair("node1"@, bit),
                    ParamView::Pair("node2"@, bit),
                    ParamView::Pair("node3"@, bit),
                    ParamView::Pair("node4"@, bit),
                ],
            }
        },
    }
}

pub open spec fn cooling_query(args: CoolingArgs) -> Seq<ParamView> {
    match args.cmd {
        CoolingCmd::Status => opt_get() + kind("cooling"@),
        CoolingCmd::Put => opt_set() + kind("cooling"@) + seq![
            ParamView::Pair("device"@, args.device.unwrap()@),
            ParamView::Number("speed"@, args.speed.unwrap() as u64),
        ],
    }
}

pub open spec fn advanced_query(args: AdvancedArgs) -> Seq<ParamView> {
    match args.mode {
        ModeCmd::Normal => opt_set() + kind("clear_usb_boot"@) + node_index(args.node),
        ModeCmd::Msd => opt_set() + kind("node_to_msd"@) + node_index(args.node),
    }
}

/// The entry for a checksum, where one was given.
pub open spec fn checksum(sha256: Option<String>) -> Seq<ParamView> {
    match sha256 {
        Some(sum) => seq![ParamView::Pair("sha256"@, sum@)],
        None => Seq::empty(),
    }
}

pub open spec fn firmware_query(version: ApiVersion, sha256: Option<String>, file: FileInfo) -> Seq<
    ParamView,
> {
    if version == ApiVersion::V1 {
        opt_set() + kind("firmware"@) + seq![ParamView::Pair("file"@, file.name@)]
    } else {
        opt_set() + kind("firmware"@) + seq![
            ParamView::Pair("file"@, file.name@),
            ParamView::Number("length"@, file.size),
        ] + checksum(sha256)
    }
}

pub open spec fn flash_query(args: FlashArgs, file: FileInfo) -> Seq<ParamView> {
    opt_set() + kind("flash"@) + seq![
        ParamView::Pair("file"@, file.name@),
        ParamView::Number("length"@, file.size),
    ] + node_index(args.node) + checksum(args.sha256) + (if args.skip_crc {
        seq![ParamView::Flag("skip_crc"@)]
    } else {
        Seq::empty()
    })
}

pub open spec fn local_flash_query(args: FlashArgs) -> Seq<ParamView> {
    opt_set() + kind("flash"@) + seq![
        ParamView::Flag("local"@),
        ParamView::Pair("file"@, args.image_path@),
    ] + node_index(args.node)
}

/// Why a UART command is refused, if it is.
pub open spec fn uart_error(args: UartArgs) -> Option<CommandError> {
    if !valid_node(args.node) {
        Some(CommandError::InvalidNode)
    } else if args.action != GetSet::Get && args.cmd.is_none() {
        Some(CommandError::MissingCmd)
    } else {
        None
    }
}

/// Why a USB command is refused, if it is.
pub open spec fn usb_error(args: UsbArgs) -> Option<CommandError> {
    if args.mode == UsbCmd::Status {
        None
    } else if args.node.is_none() {
        Some(CommandError::MissingNode)
    } else if !valid_node(args.node.unwrap()) {
        Some(CommandError::InvalidNode)
    } else {
        None
    }
}

/// Why a power command is refused, if it is.
pub open spec fn power_error(args: PowerArgs) -> Option<CommandError> {
    if args.cmd == PowerCmd::Status {
        None
    } else if args.node.is_some() && !valid_node(args.node.unwrap()) {
        Some(CommandError::InvalidNode)
    } else if args.cmd == PowerCmd::Reset && args.node.is_none() {
        Some(CommandError::MissingNode)
    } else {
        None
    }
}

/// Why a cooling command is refused, if it is.
pub open spec fn cooling_error(args: CoolingArgs) -> Option<CommandError> {
    if args.cmd == CoolingCmd::Put && (args.device.is_none() || args.speed.is_none()) {
        Some(CommandError::MissingDeviceOrSpeed)
    } else {
        None
    }
}

/// Why an advanced command is refused, if it is.
pub open spec fn advanced_error(args: AdvancedArgs) -> Option<CommandError> {
    if !valid_node(args.node) {
        Some(CommandError::InvalidNode)
    } else {
        None
    }
}

/// Why a flash command is refused, if it is.
pub open spec fn flash_error(args: FlashArgs, file: Option<FileInfo>) -> Option<CommandError> {
    if !valid_node(args.node) {
        Some(CommandError::InvalidNode)
    } else if !args.local && file.is_none() {
        Some(CommandError::MissingFile)
    } else {
        None
    }
}

/// Why a command is refused, if it is.
pub open spec fn command_error(command: Commands, file: Option<FileInfo>) -> Option<
    CommandError,
> {
    match command {
        Commands::Power(args) => power_error(args),
        Commands::Usb(args) => usb_error(args),
        Commands::Firmware(_) => if file.is_none() {
            Some(CommandError::MissingFile)
        } else {
            None
        },
        Commands::Flash(args) => flash_error(args, file),
        Commands::Uart(args) => uart_error(args),
        Commands::Cooling(args) => cooling_error(args),
        Commands::Advanced(args) => advanced_error(args),
        _ => None,
    }
}

/// What a command adds to the query.
pub open spec fn command_query(version: ApiVersion, command: Commands, file: Option<FileInfo>) -> Seq<
    ParamView,
> {
    match command {
        Commands::Power(args) => power_query(args),
        Commands::Usb(args) => usb_query(args),
        Commands::Firmware(args) => firmware_query(version, args.sha256, file.unwrap()),
        Commands::Flash(args) => if args.local {
            local_flash_query(args)
        } else {
            flash_query(args, file.unwrap())
        },
        Commands::Eth(_) => eth_query(),
        Commands::Uart(args) => uart_query(args),
        Commands::Advanced(args) => advanced_query(args),
        Commands::Cooling(args) => cooling_query(args),
        Commands::Eeprom(_) => Seq::empty(),
        Commands::Info => info_query(),
        Commands::Reboot => reboot_query(),
    }
}

/// The printer for a command's answer; `before` where the command sets
/// none.
pub open spec fn command_printer(command: Commands, before: Option<Printer>) -> Option<Printer> {
    match command {
        Commands::Power(args) => Some(
            if args.cmd == PowerCmd::Status {
                Printer::PowerStatus
            } else {
                Printer::Outcome
            },
        ),
        Commands::Usb(args) => Some(
            if args.mode == UsbCmd::Status {
                Printer::UsbStatus
            } else {
                Printer::Outcome
            },
        ),
        Commands::Uart(args) => Some(
            if args.action == GetSet::Get {
                Printer::Uart
            } else {
                Printer::Outcome
            },
        ),
        Commands::Advanced(args) => if args.mode == ModeCmd::Normal {
            before
        } else {
            Some(Printer::Outcome)
        },
        Commands::Cooling(_) => Some(Printer::Cooling),
        Commands::Info => Some(Printer::Info),
        Commands::Eth(_) | Commands::Reboot => Some(Printer::Outcome),
        Commands::Firmware(_) | Commands::Flash(_) | Commands::Eeprom(_) => before,
    }
}

/// What the caller does after a command that was not refused.
pub open spec fn command_plan(version: ApiVersion, command: Commands) -> Plan {
    match command {
        Commands::Firmware(_) => upload_plan(version),
        Commands::Flash(args) => if args.local {
            Plan::FlashLocal
        } else {
            upload_plan(version)
        },
        Commands::Advanced(args) => if args.mode == ModeCmd::Normal {
            Plan::ClearThenReset
        } else {
            Plan::Exchange
        },
        Commands::Eeprom(_) => Plan::Eeprom,
        _ => Plan::Exchange,
    }
}

/// Whether a command runs a flow of its own in place of the plain
/// exchange.
pub open spec fn command_skips(command: Commands) -> bool {
    command is Firmware || command is Flash || command is Eeprom
}

/// How a file goes up under this version of the API.
pub open spec fn upload_plan(version: ApiVersion) -> Plan {
    if version == ApiVersion::V1 {
        Plan::UploadWhole
    } else {
        Plan::UploadStreamed
    }
}

/// The payload of an answer: the first element of the array `response`.
pub open spec fn spec_payload(doc: Option<Json>) -> Result<Json, ResponseError> {
    match doc {
        None => Err(ResponseError::NotJson),
        Some(body) => match body.spec_get("response"@) {
            None => Err(ResponseError::MissingResponse),
            Some(response) => match response.spec_as_array() {
                None => Err(ResponseError::NotAnArray),
                Some(items) => if items.len() == 0 {
                    Err(ResponseError::Empty)
                } else {
                    Ok(items[0])
                },
            },
        },
    }
}

/// The payload of an answer whose body has been parsed; `None` stands for
/// a body that is no JSON document.
pub fn payload(doc: &Option<Json>) -> (r: Result<&Json, ResponseError>)
    ensures
        match r {
            Ok(j) => spec_payload(*doc) == Ok::<Json, ResponseError>(*j),
            Err(e) => spec_payload(*doc) == Err::<Json, ResponseError>(e),
        },
{
    let body = match doc {
        Some(body) => body,
        None => {
            return Err(ResponseError::NotJson);
        },
    };
    let response = match body.get("response") {
        Some(response) => response,
        None => {
            return Err(ResponseError::MissingResponse);
        },
    };
    let items = match response.as_array() {
        Some(items) => items,
        None => {
            return Err(ResponseError::NotAnArray);
        },
    };
    if items.len() == 0 {
        return Err(ResponseError::Empty);
    }
    Ok(&items[0])
}

/// The handle in the answer to a request for a transfer.
pub open spec fn spec_handle(status: u16, body: Vec<u8>, doc: Option<Json>) -> Result<
    u64,
    TransferError,
> {
    if !is_success(status) {
        Err(
            TransferError::Refused {
                status,
                body,
                detail: match doc {
                    Some(json) => member_text(json, "response"@),
                    None => None,
                },
            },
        )
    } else {
        match doc {
            None => Err(TransferError::Malformed),
            Some(json) => match json.spec_num("handle"@) {
                Some(handle) => Ok(handle),
                None => Err(TransferError::MissingHandle),
            },
        }
    }
}

/// Reads the answer to a request for a transfer, given its status, its
/// body and what the body parses to.
pub fn read_handle(status: u16, body: Vec<u8>, doc: Option<Json>) -> (r: Result<
    u64,
    TransferError,
>)
    ensures
        r == spec_handle(status, body, doc),
{
    if !(200 <= status && status < 300) {
        let detail = match &doc {
            Some(json) => match json.get("response") {
                Some(r) => Some(r.text.clone()),
                None => None,
            },
            None => None,
        };
        return Err(TransferError::Refused { status, body, detail });
    }
    match doc {
        None => Err(TransferError::Malformed),
        Some(json) => match get_json_num(&json, "handle") {
            Some(handle) => Ok(handle),
            None => Err(TransferError::MissingHandle),
        },
    }
}

/// Reads the answer to a request for a transfer from its status and body.
pub fn negotiated_handle(status: u16, body: Vec<u8>) -> (r: Result<u64, TransferError>)
    ensures
        r == spec_handle(status, body, json_document(body@)),
{
    let doc = Json::parse(body.as_slice());
    read_handle(status, body, doc)
}

impl LegacyHandler {
    /// The handler is `before` with `tail` added to the query, this
    /// printer and this flag; nothing else differs.
    pub open spec fn extends(
        self,
        before: LegacyHandler,
        tail: Seq<ParamView>,
        printer: Option<Printer>,
        skip: bool,
    ) -> bool {
        &&& self.request.host == before.request.host
        &&& self.request.ver == before.request.ver
        &&& self.request.creds == before.request.creds
        &&& self.request.method == before.request.method
        &&& self.request.user_agent == before.request.user_agent
        &&& self.request.multipart == before.request.multipart
        &&& self.request.target.base == before.request.target.base
        &&& self.request.target.route == before.request.target.route
        &&& query_view(self.request.target.query@) == query_view(before.request.target.query@)
            + tail
        &&& self.response_printer == printer
        &&& self.json == before.json
        &&& self.skip_request == skip
        &&& self.version == before.version
    }

    /// A handler for one command to `host`. Fails as `Request::new` does.
    pub fn new(
        host: String,
        json: bool,
        version: ApiVersion,
        creds: (Option<String>, Option<String>),
        user_agent: &str,
    ) -> (r: Result<LegacyHandler, BuildError>)
        ensures
            match r {
                Ok(h) => {
                    &&& spec_url_from_host(host@, version.spec_scheme()).is_some()
                    &&& header_text(user_agent.spec_bytes())
                    &&& h.request.fresh(
                        host,
                        version,
                        creds,
                        user_agent@,
                        spec_url_from_host(host@, version.spec_scheme()).unwrap(),
                    )
                    &&& h.response_printer.is_none()
                    &&& h.json == json
                    &&& !h.skip_request
                    &&& h.version == version
                },
                Err(BuildError::InvalidUrl) => spec_url_from_host(
                    host@,
                    version.spec_scheme(),
                ).is_none(),
                Err(BuildError::InvalidUserAgent) => {
                    &&& spec_url_from_host(host@, version.spec_scheme()).is_some()
                    &&& !header_text(user_agent.spec_bytes())
                },
            },
    {
        match Request::new(host, version, creds, user_agent) {
            Ok(request) => Ok(
                LegacyHandler {
                    request,
                    response_printer: None,
                    json,
                    skip_request: false,
                    version,
                },
            ),
            Err(e) => Err(e),
        }
    }

    /// What is shown of an answer: the whole document where raw JSON was
    /// asked for, else its payload.
    pub open spec fn spec_answer(self, doc: Option<Json>) -> Result<Json, ResponseError> {
        match doc {
            None => Err(ResponseError::NotJson),
            Some(body) => if self.json {
                Ok(body)
            } else {
                spec_payload(doc)
            },
        }
    }

    /// What is shown of an answer whose body has been parsed; `None`
    /// stands for a body that is no JSON document.
    pub fn answer<'a>(&self, doc: &'a Option<Json>) -> (r: Result<&'a Json, ResponseError>)
        ensures
            match r {
                Ok(j) => self.spec_answer(*doc) == Ok::<Json, ResponseError>(*j),
                Err(e) => self.spec_answer(*doc) == Err::<Json, ResponseError>(e),
            },
    {
        match doc {
            None => Err(ResponseError::NotJson),
            Some(body) => if self.json {
                Ok(body)
            } else {
                payload(doc)
            },
        }
    }

    fn put_opt_set(&mut self, name: &str)
        ensures
            final(self).extends(
                *old(self),
                opt_set() + kind(name@),
                old(self).response_printer,
                old(self).skip_request,
            ),
    {
        let ghost q0 = query_view(self.request.target.query@);
        self.request.target.append_pair("opt", "set");
        self.request.target.append_pair("type", name);
        assert(query_view(self.request.target.query@) =~= q0 + (opt_set() + kind(name@)));
    }

    fn put_opt_get(&mut self, name: &str)
        ensures
            final(self).extends(
                *old(self),
                opt_get() + kind(name@),
                old(self).response_printer,
                old(self).skip_request,
            ),
    {
        let ghost q0 = query_view(self.request.target.query@);
        self.request.target.append_pair("opt", "get");
        self.request.target.append_pair("type", name);
        assert(query_view(self.request.target.query@) =~= q0 + (opt_get() + kind(name@)));
    }

    fn put_node(&mut self, node: u8)
        requires
            valid_node(node),
        ensures
            final(self).extends(
                *old(self),
                node_index(node),
                old(self).response_printer,
                old(self).skip_request,
            ),
    {
        let ghost q0 = query_view(self.request.target.query@);
        self.request.target.append_number("node", (node - 1) as u64);
        assert(query_view(self.request.target.query@) =~= q0 + node_index(node));
    }

    fn put_checksum(&mut self, sha256: &Option<String>)
        ensures
            final(self).extends(
                *old(self),
                checksum(*sha256),
                old(self).response_printer,
                old(self).skip_request,
            ),
    {
        let ghost q0 = query_view(self.request.target.query@);
        if let Some(sum) = sha256 {
            self.request.target.append_pair("sha256", sum.as_str());
        }
        assert(query_view(self.request.target.query@) =~= q0 + checksum(*sha256));
    }

    /// The request for the controller's properties.
    pub fn handle_info(&mut self)
        ensures
            final(self).extends(
                *old(self),
                info_query(),
                Some(Printer::Info),
                old(self).skip_request,
            ),
    {
        self.put_opt_get("other");
        self.response_printer = Some(Printer::Info);
    }

    /// The request to reboot the controller.
    pub fn handle_reboot(&mut self)
        ensures
            final(self).extends(
                *old(self),
                reboot_query(),
                Some(Printer::Outcome),
                old(self).skip_request,
            ),
    {
        self.put_opt_set("reboot");
        self.response_printer = Some(Printer::Outcome);
    }

    /// The request to reset the Ethernet switch.
    pub fn handle_eth(&mut self, args: &EthArgs) -> (r: Result<(), CommandError>)
        ensures
            r.is_ok(),
            final(self).extends(
                *old(self),
                eth_query(),
                Some(Printer::Outcome),
                old(self).skip_request,
            ),
    {
        let ghost q0 = query_view(self.request.target.query@);
        match args.cmd {
            EthCmd::Reset => {
                self.put_opt_set("network");
                self.request.target.append_pair("cmd", "reset");
            },
        }
        assert(query_view(self.request.target.query@) =~= q0 + eth_query());
        self.response_printer = Some(Printer::Outcome);
        Ok(())
    }

    /// The request to read from or write to a node's UART. Refused, with
    /// nothing changed, for a node outside 1 to 4 and for a write without
    /// a command.
    pub fn handle_uart(&mut self, args: &UartArgs) -> (r: Result<(), CommandError>)
        ensures
            match uart_error(*args) {
                Some(e) => r == Err::<(), CommandError>(e) && *final(self) == *old(self),
                None => r.is_ok() && final(self).extends(
                    *old(self),
                    uart_query(*args),
                    command_printer(Commands::Uart(*args), old(self).response_printer),
                    old(self).skip_request,
                ),
            },
    {
        if args.node < 1 || args.node > 4 {
            return Err(CommandError::InvalidNode);
        }
        let ghost q0 = query_view(self.request.target.query@);
        if args.action == GetSet::Get {
            self.put_opt_get("uart");
            self.put_node(args.node);
            self.response_printer = Some(Printer::Uart);
        } else {
            let cmd = match &args.cmd {
                Some(cmd) => cmd,
                None => {
                    return Err(CommandError::MissingCmd);
                },
            };
            self.put_opt_set("uart");
            self.put_node(args.node);
            self.request.target.append_pair("cmd", cmd.as_str());
            self.response_printer = Some(Printer::Outcome);
        }
        assert(query_view(self.request.target.query@) =~= q0 + uart_query(*args));
        Ok(())
    }

    /// The request to read or set the USB routing. Refused, with nothing
    /// changed, where a mode is set without a node or for a node outside 1
    /// to 4.
    pub fn handle_usb(&mut self, args: &UsbArgs) -> (r: Result<(), CommandError>)
        ensures
            match usb_error(*args) {
                Some(e) => r == Err::<(), CommandError>(e) && *final(self) == *old(self),
                None => r.is_ok() && final(self).extends(
                    *old(self),
                    usb_query(*args),
                    command_printer(Commands::Usb(*args), old(self).response_printer),
                    old(self).skip_request,
                ),
            },
    {
        let ghost q0 = query_view(self.request.target.query@);
        let base: u64 = match args.mode {
            UsbCmd::Status => {
                self.put_opt_get("usb");
                self.response_printer = Some(Printer::UsbStatus);
                assert(query_view(self.request.target.query@) =~= q0 + usb_query(*args));
                return Ok(());
            },
            UsbCmd::Host => 0,
            UsbCmd::Device => 1,
            UsbCmd::Flash => 2,
        };
        let node = match args.node {
            Some(node) => node,
            None => {
                return Err(CommandError::MissingNode);
            },
        };
        if node < 1 || node > 4 {
            return Err(CommandError::InvalidNode);
        }
        let mode: u64 = if args.bmc {
            base + 4
        } else {
            base
        };
        self.put_opt_set("usb");
        self.put_node(node);
        self.request.target.append_number("mode", mode);
        self.response_printer = Some(Printer::Outcome);
        assert(query_view(self.request.target.query@) =~= q0 + usb_query(*args));
        Ok(())
    }

    /// The request to read or change the nodes' power. Refused, with
    /// nothing changed, for a reset without a node and for a node outside
    /// 1 to 4.
    pub fn handle_power_nodes(&mut self, args: &PowerArgs) -> (r: Result<(), CommandError>)
        ensures
            match power_error(*args) {
                Some(e) => r == Err::<(), CommandError>(e) && *final(self) == *old(self),
                None => r.is_ok() && final(self).extends(
                    *old(self),
                    power_query(*args),
                    command_printer(Commands::Power(*args), old(self).response_printer),
                    old(self).skip_request,
                ),
            },
    {
        let ghost q0 = query_view(self.request.target.query@);
        if args.cmd == PowerCmd::Status {
            self.put_opt_get("power");
            self.response_printer = Some(Printer::PowerStatus);
            assert(query_view(self.request.target.query@) =~= q0 + power_query(*args));
            return Ok(());
        }
        if let Some(node) = args.node {
            if node < 1 || node > 4 {
                return Err(CommandError::InvalidNode);
            }
        }
        if args.cmd == PowerCmd::Reset {
            let node = match args.node {
                Some(node) => node,
                None => {
                    return Err(CommandError::MissingNode);
                },
            };
            self.put_opt_set("reset");
            self.put_node(node);
            self.response_printer = Some(Printer::Outcome);
            assert(query_view(self.request.target.query@) =~= q0 + power_query(*args));
            return Ok(());
        }
        self.put_opt_set("power");
        let on_bit = if args.cmd == PowerCmd::On {
            "1"
        } else {
            "0"
        };
        match args.node {
            Some(node) => {
                let key = if node == 1 {
                    "node1"
                } else if node == 2 {
                    "node2"
                } else if node == 3 {
                    "node3"
                } else {
                    "node4"
                };
                self.request.target.append_pair(key, on_bit);
            },
            None => {
                self.request.target.append_pair("node1", on_bit);
                self.request.target.append_pair("node2", on_bit);
                self.request.target.append_pair("node3", on_bit);
                self.request.target.append_pair("node4", on_bit);
            },
        }
        self.response_printer = Some(Printer::Outcome);
        assert(query_view(self.request.target.query@) =~= q0 + power_query(*args));
        Ok(())
    }

    /// The request to read or set the cooling devices. Refused, with
    /// nothing changed, where a speed is set without device or speed.
    pub fn handle_cooling(&mut self, args: &CoolingArgs) -> (r: Result<(), CommandError>)
        ensures
            match cooling_error(*args) {
                Some(e) => r == Err::<(), CommandError>(e) && *final(self) == *old(self),
                None => r.is_ok() && final(self).extends(
                    *old(self),
                    cooling_query(*args),
                    command_printer(Commands::Cooling(*args), old(self).response_printer),
                    old(self).skip_request,
                ),
            },
    {
        let ghost q0 = query_view(self.request.target.query@);
        match args.cmd {
            CoolingCmd::Status => {
                self.put_opt_get("cooling");
            },
            CoolingCmd::Put => {
                let device = match &args.device {
                    Some(device) => device,
                    None => {
                        return Err(CommandError::MissingDeviceOrSpeed);
                    },
                };
                let speed = match args.speed {
                    Some(speed) => speed,
                    None => {
                        return Err(CommandError::MissingDeviceOrSpeed);
                    },
                };
                self.put_opt_set("cooling");
                self.request.target.append_pair("device", device.as_str());
                self.request.target.append_number("speed", speed as u64);
            },
        }
        self.response_printer = Some(Printer::Cooling);
        assert(query_view(self.request.target.query@) =~= q0 + cooling_query(*args));
        Ok(())
    }

    /// The first request of an advanced mode. For `Normal` it clears the
    /// USB boot and a reset must follow, see `finish_normal`; for `Msd` it
    /// is the whole command. Refused, with nothing changed, for a node
    /// outside 1 to 4.
    pub fn handle_advanced(&mut self, args: &AdvancedArgs) -> (r: Result<Plan, CommandError>)
        ensures
            match advanced_error(*args) {
                Some(e) => r == Err::<Plan, CommandError>(e) && *final(self) == *old(self),
                None => r == Ok::<Plan, CommandError>(
                    command_plan(old(self).version, Commands::Advanced(*args)),
                ) && final(self).extends(
                    *old(self),
                    advanced_query(*args),
                    command_printer(Commands::Advanced(*args), old(self).response_printer),
                    old(self).skip_request,
                ),
            },
    {
        if args.node < 1 || args.node > 4 {
            return Err(CommandError::InvalidNode);
        }
        let ghost q0 = query_view(self.request.target.query@);
        match args.mode {
            ModeCmd::Normal => {
                self.put_opt_set("clear_usb_boot");
                self.put_node(args.node);
                assert(query_view(self.request.target.query@) =~= q0 + advanced_query(*args));
                Ok(Plan::ClearThenReset)
            },
            ModeCmd::Msd => {
                self.put_opt_set("node_to_msd");
                self.put_node(args.node);
                self.response_printer = Some(Printer::Outcome);
                assert(query_view(self.request.target.query@) =~= q0 + advanced_query(*args));
                Ok(Plan::Exchange)
            },
        }
    }

    /// The second half of leaving the advanced mode, given the status with
    /// which the controller answered the first: on success the reset of
    /// the node is added to the query, else the command has failed and
    /// nothing changes.
    pub fn finish_normal(&mut self, args: &AdvancedArgs, status: u16) -> (r: Result<
        (),
        CommandError,
    >)
        ensures
            if !is_success(status) {
                r == Err::<(), CommandError>(CommandError::ModeRefused) && *final(self) == *old(self)
            } else if !valid_node(args.node) {
                r == Err::<(), CommandError>(CommandError::InvalidNode) && *final(self) == *old(self)
            } else {
                r.is_ok() && final(self).extends(
                    *old(self),
                    power_query(PowerArgs { cmd: PowerCmd::Reset, node: Some(args.node) }),
                    Some(Printer::Outcome),
                    old(self).skip_request,
                )
            },
    {
        if !(200 <= status && status < 300) {
            return Err(CommandError::ModeRefused);
        }
        let reset = PowerArgs { cmd: PowerCmd::Reset, node: Some(args.node) };
        self.handle_power_nodes(&reset)
    }

    /// The request that offers a firmware file, and how the file goes up.
    /// The plain exchange is skipped.
    pub fn handle_firmware(&mut self, args: &FirmwareArgs, file: &FileInfo) -> (r: Plan)
        ensures
            r == upload_plan(old(self).version),
            final(self).extends(
                *old(self),
                firmware_query(old(self).version, args.sha256, *file),
                old(self).response_printer,
                true,
            ),
    {
        let ghost q0 = query_view(self.request.target.query@);
        self.skip_request = true;
        self.put_opt_set("firmware");
        self.request.target.append_pair("file", file.name.as_str());
        if self.version == ApiVersion::V1 {
            assert(query_view(self.request.target.query@) =~= q0 + firmware_query(
                self.version,
                args.sha256,
                *file,
            ));
            Plan::UploadWhole
        } else {
            self.request.target.append_number("length", file.size);
            self.put_checksum(&args.sha256);
            assert(query_view(self.request.target.query@) =~= q0 + firmware_query(
                self.version,
                args.sha256,
                *file,
            ));
            Plan::UploadStreamed
        }
    }

    /// The request that has the controller flash a node from a file of
    /// its own. Refused, with nothing changed, for a node outside 1 to 4.
    pub fn handle_local_file_upload(&mut self, args: &FlashArgs) -> (r: Result<(), CommandError>)
        ensures
            if valid_node(args.node) {
                r.is_ok() && final(self).extends(
                    *old(self),
                    local_flash_query(*args),
                    old(self).response_printer,
                    old(self).skip_request,
                )
            } else {
                r == Err::<(), CommandError>(CommandError::InvalidNode) && *final(self) == *old(self)
            },
    {
        if args.node < 1 || args.node > 4 {
            return Err(CommandError::InvalidNode);
        }
        let ghost q0 = query_view(self.request.target.query@);
        self.put_opt_set("flash");
        self.request.target.append_key_only("local");
        self.request.target.append_pair("file", args.image_path.as_str());
        self.put_node(args.node);
        assert(query_view(self.request.target.query@) =~= q0 + local_flash_query(*args));
        Ok(())
    }

    /// The request that offers an image for a node, and how the image
    /// goes up; `file` is the image's name and size and may be left out
    /// for an image on the controller's side. The plain exchange is
    /// skipped. Refused, with nothing changed, for a node outside 1 to 4
    /// and for an upload without `file`.
    pub fn handle_flash(&mut self, args: &FlashArgs, file: &Option<FileInfo>) -> (r: Result<
        Plan,
        CommandError,
    >)
        ensures
            match flash_error(*args, *file) {
                Some(e) => r == Err::<Plan, CommandError>(e) && *final(self) == *old(self),
                None => r == Ok::<Plan, CommandError>(
                    command_plan(old(self).version, Commands::Flash(*args)),
                ) && final(self).extends(
                    *old(self),
                    command_query(old(self).version, Commands::Flash(*args), *file),
                    old(self).response_printer,
                    true,
                ),
            },
    {
        let ghost q0 = query_view(self.request.target.query@);
        if args.node < 1 || args.node > 4 {
            return Err(CommandError::InvalidNode);
        }
        if args.local {
            self.skip_request = true;
            return match self.handle_local_file_upload(args) {
                Ok(()) => Ok(Plan::FlashLocal),
                Err(e) => Err(e),
            };
        }
        let file = match file {
            Some(file) => file,
            None => {
                return Err(CommandError::MissingFile);
            },
        };
        self.skip_request = true;
        self.put_opt_set("flash");
        self.request.target.append_pair("file", file.name.as_str());
        self.request.target.append_number("length", file.size);
        self.put_node(args.node);
        self.put_checksum(&args.sha256);
        if args.skip_crc {
            self.request.target.append_key_only("skip_crc");
        }
        assert(query_view(self.request.target.query@) =~= q0 + flash_query(*args, *file));
        if self.version == ApiVersion::V1 {
            Ok(Plan::UploadWhole)
        } else {
            Ok(Plan::UploadStreamed)
        }
    }

    /// What an upload in one piece carries: the whole file under its name.
    pub fn bulk_payload(&self, file_name: String) -> (r: Payload)
        ensures
            r == (Payload::Whole { file_name }),
    {
        Payload::Whole { file_name }
    }

    /// The request that carries a streamed file to the transfer `handle`:
    /// a `POST` to `upload/<handle>`, once for each chunk. Fails as
    /// `Request::to_post` does.
    pub fn upload_request(&self, handle: u64, file_size: u64) -> (r: Result<
        Request,
        BuildError,
    >)
        ensures
            match r {
                Ok(req) => {
                    &&& spec_url_from_host(
                        self.request.host@,
                        self.request.ver.spec_scheme(),
                    ) == Some(req.target.base@)
                    &&& req.host == self.request.host
                    &&& req.ver == self.request.ver
                    &&& req.creds == self.request.creds
                    &&& req.method == Method::Post
                    &&& req.target.route == Route::Upload(handle)
                    &&& req.target.query@.len() == 0
                    &&& req.user_agent.is_none()
                    &&& req.multipart == Some(Payload::Chunked { length: file_size })
                },
                Err(e) => e == BuildError::InvalidUrl && spec_url_from_host(
                    self.request.host@,
                    self.request.ver.spec_scheme(),
                ).is_none(),
            },
    {
        let mut req = match self.request.to_post() {
            Ok(req) => req,
            Err(e) => {
                return Err(e);
            },
        };
        req.target.route = Route::Upload(handle);
        req.set_multipart(Payload::Chunked { length: file_size });
        Ok(req)
    }

    /// The request by which the progress of a transfer is polled: this
    /// request without its body, its query replaced.
    pub fn progress_request(&self) -> (r: Request)
        ensures
            r.host == self.request.host,
            r.ver == self.request.ver,
            r.creds == self.request.creds,
            r.method == self.request.method,
            r.target.base == self.request.target.base,
            r.target.route == self.request.target.route,
            r.user_agent == self.request.user_agent,
            r.multipart.is_none(),
            query_view(r.target.query@) == progress_query(),
    {
        let mut req = self.request.clone();
        req.target.clear_query();
        req.target.append_pair("opt", "get");
        req.target.append_pair("type", "flash");
        assert(query_view(req.target.query@) =~= progress_query());
        req
    }

    /// Takes in a command: the query it adds, the printer for its answer,
    /// and what the caller does next. `file` is the name and size of the
    /// file that an upload sends.
    pub fn handle_cmd(&mut self, command: &Commands, file: &Option<FileInfo>) -> (r: Result<
        Plan,
        CommandError,
    >)
        ensures
            match command_error(*command, *file) {
                Some(e) => r == Err::<Plan, CommandError>(e) && *final(self) == *old(self),
                None => r == Ok::<Plan, CommandError>(command_plan(old(self).version, *command))
                    && final(self).extends(
                    *old(self),
                    command_query(old(self).version, *command, *file),
                    command_printer(*command, old(self).response_printer),
                    command_skips(*command) || old(self).skip_request,
                ),
            },
    {
        let ghost q0 = query_view(self.request.target.query@);
        assert(q0 + Seq::<ParamView>::empty() =~= q0);
        match command {
            Commands::Power(args) => match self.handle_power_nodes(args) {
                Ok(()) => Ok(Plan::Exchange),
                Err(e) => Err(e),
            },
            Commands::Usb(args) => match self.handle_usb(args) {
                Ok(()) => Ok(Plan::Exchange),
                Err(e) => Err(e),
            },
            Commands::Firmware(args) => match file {
                Some(info) => Ok(self.handle_firmware(args, info)),
                None => Err(CommandError::MissingFile),
            },
            Commands::Flash(args) => self.handle_flash(args, file),
            Commands::Eth(args) => match self.handle_eth(args) {
                Ok(()) => Ok(Plan::Exchange),
                Err(e) => Err(e),
            },
            Commands::Uart(args) => match self.handle_uart(args) {
                Ok(()) => Ok(Plan::Exchange),
                Err(e) => Err(e),
            },
            Commands::Cooling(args) => match self.handle_cooling(args) {
                Ok(()) => Ok(Plan::Exchange),
                Err(e) => Err(e),
            },
            Commands::Advanced(args) => self.handle_advanced(args),
            Commands::Eeprom(_) => {
                self.skip_request = true;
                Ok(Plan::Eeprom)
            },
            Commands::Info => {
                self.handle_info();
                Ok(Plan::Exchange)
            },
            Commands::Reboot => {
                self.handle_reboot();
                Ok(Plan::Exchange)
            },
        }
    }
}

} // verus!
