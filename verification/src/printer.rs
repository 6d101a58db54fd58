//! What each kind of answer shows: the values are picked out of the
//! payload here and laid out on the terminal elsewhere.

use vstd::prelude::*;
use crate::json::{Json, Member, same_text};
use crate::text::{lowercase, parse_u8, parsed_u8, to_lowercase};

verus! {

/// Why a payload could not be shown.
#[derive(Clone, Copy, PartialEq, Eq, Structural, Debug)]
pub enum PrintError {
    /// The payload has no `result`.
    MissingResult,
    /// `result` is no array.
    ResultNotArray,
    /// `result` is an empty array.
    ResultEmpty,
    /// The first element of `result` is no object.
    NotAnObject,
    /// An expected key is missing.
    MissingKey,
    /// A value that should be a string is none.
    NotText,
    /// A value that should be a number is none.
    NotNumber,
}

impl PrintError {
    /// The failure in words.
    pub open spec fn spec_message(self) -> Seq<char> {
        match self {
            PrintError::MissingResult => "API error: expected `result` key"@,
            PrintError::ResultNotArray => "API error: `result` is not an array"@,
            PrintError::ResultEmpty => "API error: `result` is empty"@,
            PrintError::NotAnObject => "response parse error"@,
            PrintError::MissingKey => "API error: expected key is missing"@,
            PrintError::NotText => "API error: value is not a string"@,
            PrintError::NotNumber => "API error: value is not a number"@,
        }
    }

    pub fn message(&self) -> (r: &'static str)
        ensures
            r@ == self.spec_message(),
    {
        match self {
            PrintError::MissingResult => "API error: expected `result` key",
            PrintError::ResultNotArray => "API error: `result` is not an array",
            PrintError::ResultEmpty => "API error: `result` is empty",
            PrintError::NotAnObject => "response parse error",
            PrintError::MissingKey => "API error: expected key is missing",
            PrintError::NotText => "API error: value is not a string",
            PrintError::NotNumber => "API error: value is not a number",
        }
    }
}

/// One cooling device.
#[derive(Debug, PartialEq, Eq)]
pub struct CoolingDevice {
    pub name: String,
    pub speed: u64,
    pub max_speed: u64,
}

/// What a cooling command answered.
#[derive(Debug, PartialEq, Eq)]
pub enum CoolingReport {
    /// A plain message.
    Message(String),
    /// The devices; none means that the board has no cooling device.
    Devices(Vec<CoolingDevice>),
}

/// The string under `key`.
pub open spec fn spec_text_under(map: Json, key: Seq<char>) -> Result<String, PrintError> {
    match map.spec_get(key) {
        None => Err(PrintError::MissingKey),
        Some(j) => match j.spec_as_string() {
            Some(s) => Ok(s),
            None => Err(PrintError::NotText),
        },
    }
}

pub fn text_under(map: &Json, key: &str) -> (r: Result<String, PrintError>)
    ensures
        r == spec_text_under(*map, key@),
{
    match map.get(key) {
        None => Err(PrintError::MissingKey),
        Some(j) => match j.as_string() {
            Some(s) => Ok(s),
            None => Err(PrintError::NotText),
        },
    }
}

/// The number under `key`.
pub open spec fn spec_number_under(map: Json, key: Seq<char>) -> Result<u64, PrintError> {
    match map.spec_get(key) {
        None => Err(PrintError::MissingKey),
        Some(j) => match j.spec_as_u64() {
            Some(n) => Ok(n),
            None => Err(PrintError::NotNumber),
        },
    }
}

pub fn number_under(map: &Json, key: &str) -> (r: Result<u64, PrintError>)
    ensures
        r == spec_number_under(*map, key@),
{
    match map.get(key) {
        None => Err(PrintError::MissingKey),
        Some(j) => match j.as_u64() {
            Some(n) => Ok(n),
            None => Err(PrintError::NotNumber),
        },
    }
}

/// The elements of the array `result`.
pub open spec fn spec_results(map: Json) -> Result<Seq<Json>, PrintError> {
    match map.spec_get("result"@) {
        None => Err(PrintError::MissingResult),
        Some(result) => match result.spec_as_array() {
            None => Err(PrintError::ResultNotArray),
            Some(items) => Ok(items),
        },
    }
}

pub fn results(map: &Json) -> (r: Result<&Vec<Json>, PrintError>)
    ensures
        match r {
            Ok(items) => spec_results(*map) == Ok::<Seq<Json>, PrintError>(items@),
            Err(e) => spec_results(*map) == Err::<Seq<Json>, PrintError>(e),
        },
{
    match map.get("result") {
        None => Err(PrintError::MissingResult),
        Some(result) => match result.as_array() {
            None => Err(PrintError::ResultNotArray),
            Some(items) => Ok(items),
        },
    }
}

/// The first element of the array `result`.
pub open spec fn spec_first_result(map: Json) -> Result<Json, PrintError> {
    match spec_results(map) {
        Err(e) => Err(e),
        Ok(items) => if items.len() == 0 {
            Err(PrintError::ResultEmpty)
        } else {
            Ok(items[0])
        },
    }
}

pub fn first_result(map: &Json) -> (r: Result<&Json, PrintError>)
    ensures
        match r {
            Ok(j) => spec_first_result(*map) == Ok::<Json, PrintError>(*j),
            Err(e) => spec_first_result(*map) == Err::<Json, PrintError>(e),
        },
{
    match results(map) {
        Err(e) => Err(e),
        Ok(items) => if items.len() == 0 {
            Err(PrintError::ResultEmpty)
        } else {
            Ok(&items[0])
        },
    }
}

/// The members of the object that is the first element of `result`.
pub open spec fn spec_rows(map: Json) -> Result<Seq<Member>, PrintError> {
    match spec_first_result(map) {
        Err(e) => Err(e),
        Ok(first) => match first.spec_as_object() {
            Some(members) => Ok(members),
            None => Err(PrintError::NotAnObject),
        },
    }
}

pub fn rows(map: &Json) -> (r: Result<&Vec<Member>, PrintError>)
    ensures
        match r {
            Ok(members) => spec_rows(*map) == Ok::<Seq<Member>, PrintError>(members@),
            Err(e) => spec_rows(*map) == Err::<Seq<Member>, PrintError>(e),
        },
{
    match first_result(map) {
        Err(e) => Err(e),
        Ok(first) => match first.as_object() {
            Some(members) => Ok(members),
            None => Err(PrintError::NotAnObject),
        },
    }
}

/// The outcome that a command reports: the string under `result`.
pub fn result_printer(result: &Json) -> (r: Result<String, PrintError>)
    ensures
        r == spec_text_under(*result, "result"@),
{
    text_under(result, "result")
}

/// The text read from a UART: the string under `uart`.
pub fn uart_printer(map: &Json) -> (r: Result<String, PrintError>)
    ensures
        r == spec_text_under(*map, "uart"@),
{
    text_under(map, "uart")
}

/// The controller's properties, each with its value: the members of the
/// first element of `result`, in their order. Fails where there is no
/// such object, and with `NotText` where a value is no string.
pub fn info_printer(map: &Json) -> (r: Result<Vec<(String, String)>, PrintError>)
    ensures
        match r {
            Ok(lines) => {
                &&& spec_rows(*map).is_ok()
                &&& lines@.len() == spec_rows(*map).unwrap().len()
                &&& forall|i: int|
                    0 <= i < lines@.len() ==> (#[trigger] lines@[i]).0 == spec_rows(
                        *map,
                    ).unwrap()[i].key && Some(lines@[i].1) == spec_rows(
                        *map,
                    ).unwrap()[i].value.spec_as_string()
            },
            Err(e) => match spec_rows(*map) {
                Err(f) => e == f,
                Ok(members) => e == PrintError::NotText && exists|i: int|
                    0 <= i < members.len() && (#[trigger] members[i]).value.spec_as_string().is_none(),
            },
        },
{
    let members = match rows(map) {
        Ok(members) => members,
        Err(e) => {
            return Err(e);
        },
    };
    let mut lines: Vec<(String, String)> = Vec::new();
    let mut i: usize = 0;
    while i < members.len()
        invariant
            0 <= i <= members.len(),
            lines@.len() == i,
            spec_rows(*map) == Ok::<Seq<Member>, PrintError>(members@),
            forall|j: int|
                0 <= j < i ==> (#[trigger] lines@[j]).0 == members@[j].key && Some(lines@[j].1)
                    == members@[j].value.spec_as_string(),
        decreases members.len() - i,
    {
        let value = match members[i].value.as_string() {
            Some(value) => value,
            None => {
                assert(members@[i as int].value.spec_as_string().is_none());
                return Err(PrintError::NotText);
            },
        };
        lines.push((members[i].key.clone(), value));
        i = i + 1;
    }
    Ok(lines)
}

/// Whether a node is on, as its member says: the value is a string that
/// parses to a number, and the node is on where that number is 1.
pub open spec fn node_state(m: Member) -> Result<bool, PrintError> {
    match m.value.spec_as_str() {
        None => Err(PrintError::NotText),
        Some(s) => match parsed_u8(s) {
            None => Err(PrintError::NotNumber),
            Some(n) => Ok(n == 1),
        },
    }
}

pub fn read_node_state(m: &Member) -> (r: Result<bool, PrintError>)
    ensures
        r == node_state(*m),
{
    match m.value.as_str() {
        None => Err(PrintError::NotText),
        Some(s) => match parse_u8(s) {
            None => Err(PrintError::NotNumber),
            Some(n) => Ok(n == 1),
        },
    }
}

/// Each node with its power state: the members of the first element of
/// `result`, in their order. Fails where there is no such object, and
/// with the error of the first member whose state cannot be read.
pub fn print_power_status_nodes(map: &Json) -> (r: Result<Vec<(String, bool)>, PrintError>)
    ensures
        match r {
            Ok(lines) => {
                &&& spec_rows(*map).is_ok()
                &&& lines@.len() == spec_rows(*map).unwrap().len()
                &&& forall|i: int|
                    0 <= i < lines@.len() ==> (#[trigger] lines@[i]).0 == spec_rows(
                        *map,
                    ).unwrap()[i].key && Ok::<bool, PrintError>(lines@[i].1) == node_state(
                        spec_rows(*map).unwrap()[i],
                    )
            },
            Err(e) => match spec_rows(*map) {
                Err(f) => e == f,
                Ok(members) => exists|i: int|
                    0 <= i < members.len() && node_state(#[trigger] members[i]) == Err::<
                        bool,
                        PrintError,
                    >(e) && forall|j: int| 0 <= j < i ==> node_state(#[trigger] members[j]).is_ok(),
            },
        },
{
    let members = match rows(map) {
        Ok(members) => members,
        Err(e) => {
            return Err(e);
        },
    };
    let mut lines: Vec<(String, bool)> = Vec::new();
    let mut i: usize = 0;
    while i < members.len()
        invariant
            0 <= i <= members.len(),
            lines@.len() == i,
            spec_rows(*map) == Ok::<Seq<Member>, PrintError>(members@),
            forall|j: int| 0 <= j < i ==> node_state(#[trigger] members@[j]).is_ok(),
            forall|j: int|
                0 <= j < i ==> (#[trigger] lines@[j]).0 == members@[j].key && Ok::<
                    bool,
                    PrintError,
                >(lines@[j].1) == node_state(members@[j]),
        decreases members.len() - i,
    {
        let on = match read_node_state(&members[i]) {
            Ok(on) => on,
            Err(e) => {
                assert(node_state(members@[i as int]) == Err::<bool, PrintError>(e));
                return Err(e);
            },
        };
        lines.push((members[i].key.clone(), on));
        i = i + 1;
    }
    Ok(lines)
}

/// Host and device of the USB bus, in lower case. The answer names a
/// node, its mode and the other end of the route: in mode `host` the node
/// is the host, else the other end is.
pub open spec fn spec_usb_status(map: Json) -> Result<(Seq<char>, Seq<char>), PrintError> {
    match spec_first_result(map) {
        Err(e) => Err(e),
        Ok(first) => match spec_text_under(first, "node"@) {
            Err(e) => Err(e),
            Ok(node) => match spec_text_under(first, "mode"@) {
                Err(e) => Err(e),
                Ok(mode) => match spec_text_under(first, "route"@) {
                    Err(e) => Err(e),
                    Ok(route) => if lowercase(mode@) == "host"@ {
                        Ok((lowercase(node@), lowercase(route@)))
                    } else {
                        Ok((lowercase(route@), lowercase(node@)))
                    },
                },
            },
        },
    }
}

pub fn print_usb_status(map: &Json) -> (r: Result<(String, String), PrintError>)
    ensures
        match r {
            Ok((host, device)) => spec_usb_status(*map) == Ok::<
                (Seq<char>, Seq<char>),
                PrintError,
            >((host@, device@)),
            Err(e) => spec_usb_status(*map) == Err::<(Seq<char>, Seq<char>), PrintError>(e),
        },
{
    let first = match first_result(map) {
        Ok(first) => first,
        Err(e) => {
            return Err(e);
        },
    };
    let node = match text_under(first, "node") {
        Ok(node) => to_lowercase(node.as_str()),
        Err(e) => {
            return Err(e);
        },
    };
    let mode = match text_under(first, "mode") {
        Ok(mode) => to_lowercase(mode.as_str()),
        Err(e) => {
            return Err(e);
        },
    };
    let route = match text_under(first, "route") {
        Ok(route) => to_lowercase(route.as_str()),
        Err(e) => {
            return Err(e);
        },
    };
    if same_text(mode.as_str(), "host") {
        Ok((node, route))
    } else {
        Ok((route, node))
    }
}

/// One cooling device as its object describes it.
pub open spec fn spec_device(j: Json) -> Result<(String, u64, u64), PrintError> {
    match spec_text_under(j, "device"@) {
        Err(e) => Err(e),
        Ok(name) => match spec_number_under(j, "speed"@) {
            Err(e) => Err(e),
            Ok(speed) => match spec_number_under(j, "max_speed"@) {
                Err(e) => Err(e),
                Ok(max_speed) => Ok((name, speed, max_speed)),
            },
        },
    }
}

pub fn read_device(j: &Json) -> (r: Result<CoolingDevice, PrintError>)
    ensures
        match r {
            Ok(d) => spec_device(*j) == Ok::<(String, u64, u64), PrintError>(
                (d.name, d.speed, d.max_speed),
            ),
            Err(e) => spec_device(*j) == Err::<(String, u64, u64), PrintError>(e),
        },
{
    let name = match text_under(j, "device") {
        Ok(name) => name,
        Err(e) => {
            return Err(e);
        },
    };
    let speed = match number_under(j, "speed") {
        Ok(speed) => speed,
        Err(e) => {
            return Err(e);
        },
    };
    let max_speed = match number_under(j, "max_speed") {
        Ok(max_speed) => max_speed,
        Err(e) => {
            return Err(e);
        },
    };
    Ok(CoolingDevice { name, speed, max_speed })
}

/// What a cooling command answered: the message where `result` is a
/// string, else the devices that the array `result` lists, in its order.
/// Fails where `result` is neither, and with the error of the first
/// device that cannot be read.
pub fn cooling_printer(map: &Json) -> (r: Result<CoolingReport, PrintError>)
    ensures
        match r {
            Ok(CoolingReport::Message(m)) => spec_text_under(*map, "result"@) == Ok::<
                String,
                PrintError,
            >(m),
            Ok(CoolingReport::Devices(devices)) => {
                &&& spec_text_under(*map, "result"@).is_err()
                &&& spec_results(*map).is_ok()
                &&& devices@.len() == spec_results(*map).unwrap().len()
                &&& forall|i: int|
                    0 <= i < devices@.len() ==> spec_device(
                        #[trigger] spec_results(*map).unwrap()[i],
                    ) == Ok::<(String, u64, u64), PrintError>(
                        (devices@[i].name, devices@[i].speed, devices@[i].max_speed),
                    )
            },
            Err(e) => spec_text_under(*map, "result"@).is_err() && match spec_results(*map) {
                Err(f) => e == f,
                Ok(items) => exists|i: int|
                    0 <= i < items.len() && spec_device(#[trigger] items[i]) == Err::<
                        (String, u64, u64),
                        PrintError,
                    >(e) && forall|j: int| 0 <= j < i ==> spec_device(#[trigger] items[j]).is_ok(),
            },
        },
{
    if let Ok(message) = text_under(map, "result") {
        return Ok(CoolingReport::Message(message));
    }
    let items = match results(map) {
        Ok(items) => items,
        Err(e) => {
            return Err(e);
        },
    };
    let mut devices: Vec<CoolingDevice> = Vec::new();
    let mut i: usize = 0;
    while i < items.len()
        invariant
            0 <= i <= items.len(),
            devices@.len() == i,
            spec_text_under(*map, "result"@).is_err(),
            spec_results(*map) == Ok::<Seq<Json>, PrintError>(items@),
            forall|j: int| 0 <= j < i ==> spec_device(#[trigger] items@[j]).is_ok(),
            forall|j: int|
                0 <= j < i ==> spec_device(#[trigger] items@[j]) == Ok::<
                    (String, u64, u64),
                    PrintError,
                >((devices@[j].name, devices@[j].speed, devices@[j].max_speed)),
        decreases items.len() - i,
    {
        let device = match read_device(&items[i]) {
            Ok(device) => device,
            Err(e) => {
                assert(spec_device(items@[i as int]) == Err::<(String, u64, u64), PrintError>(e));
                return Err(e);
            },
        };
        devices.push(device);
        i = i + 1;
    }
    Ok(CoolingReport::Devices(devices))
}

} // verus!
