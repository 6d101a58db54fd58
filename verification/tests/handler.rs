use tpi::cli::{
    AdvancedArgs, ApiVersion, Commands, CoolingArgs, CoolingCmd, EepromArgs, EthArgs, EthCmd,
    FirmwareArgs, FlashArgs, GetSet, ModeCmd, PowerArgs, PowerCmd, UartArgs, UsbArgs, UsbCmd,
};
use tpi::handler::{
    negotiated_handle, payload, read_handle, user_agent, CommandError, FileInfo, LegacyHandler,
    Plan, Platform, Printer, ResponseError, TransferError,
};
use tpi::json::Json;
use tpi::request::{BuildError, Method, Payload, Param, Route};

fn s(text: &str) -> String {
    String::from(text)
}

fn pair(k: &str, v: &str) -> Param {
    Param::Pair(s(k), s(v))
}

fn num(k: &str, v: u64) -> Param {
    Param::Number(s(k), v)
}

fn handler(version: ApiVersion) -> LegacyHandler {
    LegacyHandler::new(s("turingpi.local"), false, version, (None, None), "TPI").unwrap()
}

fn query(h: &LegacyHandler) -> &Vec<Param> {
    &h.request.url().query
}

#[test]
fn handler_starts_with_an_empty_request() {
    let h = handler(ApiVersion::V1_1);
    assert!(query(&h).is_empty());
    assert_eq!(h.response_printer, None);
    assert!(!h.json && !h.skip_request);
    assert_eq!(h.version, ApiVersion::V1_1);
    assert_eq!(h.request.url().base, "https://turingpi.local/api/bmc");
    assert_eq!(
        LegacyHandler::new(s("a b"), true, ApiVersion::V1, (None, None), "TPI").err(),
        Some(BuildError::InvalidUrl)
    );
    assert_eq!(
        LegacyHandler::new(s("host"), true, ApiVersion::V1, (None, None), "\r").err(),
        Some(BuildError::InvalidUserAgent)
    );
}

#[test]
fn info_reboot_and_eth_have_fixed_queries() {
    let mut h = handler(ApiVersion::V1_1);
    assert_eq!(h.handle_cmd(&Commands::Info, &None), Ok(Plan::Exchange));
    assert_eq!(query(&h), &vec![pair("opt", "get"), pair("type", "other")]);
    assert_eq!(h.response_printer, Some(Printer::Info));

    let mut h = handler(ApiVersion::V1_1);
    assert_eq!(h.handle_cmd(&Commands::Reboot, &None), Ok(Plan::Exchange));
    assert_eq!(query(&h), &vec![pair("opt", "set"), pair("type", "reboot")]);
    assert_eq!(h.response_printer, Some(Printer::Outcome));

    let mut h = handler(ApiVersion::V1_1);
    let eth = Commands::Eth(EthArgs { cmd: EthCmd::Reset });
    assert_eq!(h.handle_cmd(&eth, &None), Ok(Plan::Exchange));
    assert_eq!(
        query(&h),
        &vec![pair("opt", "set"), pair("type", "network"), pair("cmd", "reset")]
    );
    assert_eq!(h.response_printer, Some(Printer::Outcome));
    assert!(!h.skip_request);
}

#[test]
fn uart_reads_and_writes() {
    let mut h = handler(ApiVersion::V1_1);
    let get = UartArgs { action: GetSet::Get, node: 2, cmd: None };
    assert_eq!(h.handle_uart(&get), Ok(()));
    assert_eq!(query(&h), &vec![pair("opt", "get"), pair("type", "uart"), num("node", 1)]);
    assert_eq!(h.response_printer, Some(Printer::Uart));

    let mut h = handler(ApiVersion::V1_1);
    let put = UartArgs { action: GetSet::Put, node: 4, cmd: Some(s("ls -l")) };
    assert_eq!(h.handle_cmd(&Commands::Uart(put), &None), Ok(Plan::Exchange));
    assert_eq!(
        query(&h),
        &vec![pair("opt", "set"), pair("type", "uart"), num("node", 3), pair("cmd", "ls -l")]
    );
    assert_eq!(h.response_printer, Some(Printer::Outcome));

    let mut h = handler(ApiVersion::V1_1);
    let bare = UartArgs { action: GetSet::Put, node: 1, cmd: None };
    assert_eq!(h.handle_uart(&bare), Err(CommandError::MissingCmd));
    assert!(query(&h).is_empty());
    let off = UartArgs { action: GetSet::Get, node: 0, cmd: None };
    assert_eq!(h.handle_uart(&off), Err(CommandError::InvalidNode));
    let off = UartArgs { action: GetSet::Get, node: 5, cmd: None };
    assert_eq!(h.handle_cmd(&Commands::Uart(off), &None), Err(CommandError::InvalidNode));
    assert!(query(&h).is_empty());
    assert_eq!(h.response_printer, None);
}

#[test]
fn usb_modes_are_numbered() {
    let mut h = handler(ApiVersion::V1_1);
    let status = UsbArgs { mode: UsbCmd::Status, bmc: false, node: None };
    assert_eq!(h.handle_usb(&status), Ok(()));
    assert_eq!(query(&h), &vec![pair("opt", "get"), pair("type", "usb")]);
    assert_eq!(h.response_printer, Some(Printer::UsbStatus));

    for (mode, bmc, number) in [
        (UsbCmd::Host, false, 0u64),
        (UsbCmd::Device, false, 1),
        (UsbCmd::Flash, false, 2),
        (UsbCmd::Host, true, 4),
        (UsbCmd::Device, true, 5),
        (UsbCmd::Flash, true, 6),
    ] {
        let mut h = handler(ApiVersion::V1_1);
        let args = UsbArgs { mode, bmc, node: Some(3) };
        assert_eq!(h.handle_cmd(&Commands::Usb(args), &None), Ok(Plan::Exchange));
        assert_eq!(
            query(&h),
            &vec![pair("opt", "set"), pair("type", "usb"), num("node", 2), num("mode", number)]
        );
        assert_eq!(h.response_printer, Some(Printer::Outcome));
    }

    let mut h = handler(ApiVersion::V1_1);
    let args = UsbArgs { mode: UsbCmd::Host, bmc: false, node: None };
    assert_eq!(h.handle_usb(&args), Err(CommandError::MissingNode));
    let args = UsbArgs { mode: UsbCmd::Host, bmc: false, node: Some(9) };
    assert_eq!(h.handle_usb(&args), Err(CommandError::InvalidNode));
    assert!(query(&h).is_empty());
}

#[test]
fn power_commands_address_one_node_or_all() {
    let mut h = handler(ApiVersion::V1_1);
    assert_eq!(h.handle_power_nodes(&PowerArgs { cmd: PowerCmd::Status, node: None }), Ok(()));
    assert_eq!(query(&h), &vec![pair("opt", "get"), pair("type", "power")]);
    assert_eq!(h.response_printer, Some(Printer::PowerStatus));

    let mut h = handler(ApiVersion::V1_1);
    assert_eq!(h.handle_power_nodes(&PowerArgs { cmd: PowerCmd::Reset, node: Some(2) }), Ok(()));
    assert_eq!(query(&h), &vec![pair("opt", "set"), pair("type", "reset"), num("node", 1)]);

    let mut h = handler(ApiVersion::V1_1);
    assert_eq!(h.handle_power_nodes(&PowerArgs { cmd: PowerCmd::On, node: Some(3) }), Ok(()));
    assert_eq!(query(&h), &vec![pair("opt", "set"), pair("type", "power"), pair("node3", "1")]);

    let mut h = handler(ApiVersion::V1_1);
    let off = Commands::Power(PowerArgs { cmd: PowerCmd::Off, node: None });
    assert_eq!(h.handle_cmd(&off, &None), Ok(Plan::Exchange));
    assert_eq!(
        query(&h),
        &vec![
            pair("opt", "set"),
            pair("type", "power"),
            pair("node1", "0"),
            pair("node2", "0"),
            pair("node3", "0"),
            pair("node4", "0"),
        ]
    );
    assert_eq!(h.response_printer, Some(Printer::Outcome));

    let mut h = handler(ApiVersion::V1_1);
    assert_eq!(
        h.handle_power_nodes(&PowerArgs { cmd: PowerCmd::Reset, node: None }),
        Err(CommandError::MissingNode)
    );
    assert_eq!(
        h.handle_power_nodes(&PowerArgs { cmd: PowerCmd::On, node: Some(0) }),
        Err(CommandError::InvalidNode)
    );
    assert!(query(&h).is_empty());
}

#[test]
fn cooling_set_needs_device_and_speed() {
    let mut h = handler(ApiVersion::V1_1);
    let status = CoolingArgs { cmd: CoolingCmd::Status, device: None, speed: None };
    assert_eq!(h.handle_cooling(&status), Ok(()));
    assert_eq!(query(&h), &vec![pair("opt", "get"), pair("type", "cooling")]);
    assert_eq!(h.response_printer, Some(Printer::Cooling));

    let mut h = handler(ApiVersion::V1_1);
    let put = CoolingArgs { cmd: CoolingCmd::Put, device: Some(s("fan0")), speed: Some(80) };
    assert_eq!(h.handle_cmd(&Commands::Cooling(put), &None), Ok(Plan::Exchange));
    assert_eq!(
        query(&h),
        &vec![pair("opt", "set"), pair("type", "cooling"), pair("device", "fan0"), num("speed", 80)]
    );

    let mut h = handler(ApiVersion::V1_1);
    let put = CoolingArgs { cmd: CoolingCmd::Put, device: Some(s("fan0")), speed: None };
    assert_eq!(h.handle_cooling(&put), Err(CommandError::MissingDeviceOrSpeed));
    let put = CoolingArgs { cmd: CoolingCmd::Put, device: None, speed: Some(1) };
    assert_eq!(h.handle_cooling(&put), Err(CommandError::MissingDeviceOrSpeed));
    assert!(query(&h).is_empty());
}

#[test]
fn leaving_advanced_mode_takes_two_requests() {
    let mut h = handler(ApiVersion::V1_1);
    let args = AdvancedArgs { mode: ModeCmd::Normal, node: 2 };
    assert_eq!(h.handle_advanced(&args), Ok(Plan::ClearThenReset));
    assert_eq!(
        query(&h),
        &vec![pair("opt", "set"), pair("type", "clear_usb_boot"), num("node", 1)]
    );
    assert_eq!(h.response_printer, None);
    assert_eq!(h.finish_normal(&args, 500), Err(CommandError::ModeRefused));
    assert_eq!(query(&h).len(), 3);
    assert_eq!(h.finish_normal(&args, 200), Ok(()));
    assert_eq!(
        query(&h),
        &vec![
            pair("opt", "set"),
            pair("type", "clear_usb_boot"),
            num("node", 1),
            pair("opt", "set"),
            pair("type", "reset"),
            num("node", 1),
        ]
    );
    assert_eq!(h.response_printer, Some(Printer::Outcome));

    let mut h = handler(ApiVersion::V1_1);
    let msd = AdvancedArgs { mode: ModeCmd::Msd, node: 1 };
    assert_eq!(h.handle_cmd(&Commands::Advanced(msd), &None), Ok(Plan::Exchange));
    assert_eq!(query(&h), &vec![pair("opt", "set"), pair("type", "node_to_msd"), num("node", 0)]);
    let bad = AdvancedArgs { mode: ModeCmd::Msd, node: 7 };
    assert_eq!(h.handle_advanced(&bad), Err(CommandError::InvalidNode));
}

#[test]
fn firmware_upload_depends_on_the_version() {
    let file = FileInfo { name: s("fw.tpu"), size: 1234 };
    let args = FirmwareArgs { file: s("/tmp/fw.tpu"), sha256: Some(s("abcd")) };
    let mut h = handler(ApiVersion::V1);
    assert_eq!(h.handle_firmware(&args, &file), Plan::UploadWhole);
    assert_eq!(
        query(&h),
        &vec![pair("opt", "set"), pair("type", "firmware"), pair("file", "fw.tpu")]
    );
    assert!(h.skip_request);

    let mut h = handler(ApiVersion::V1_1);
    let cmd = Commands::Firmware(args);
    assert_eq!(h.handle_cmd(&cmd, &Some(file)), Ok(Plan::UploadStreamed));
    assert_eq!(
        query(&h),
        &vec![
            pair("opt", "set"),
            pair("type", "firmware"),
            pair("file", "fw.tpu"),
            num("length", 1234),
            pair("sha256", "abcd"),
        ]
    );
    assert!(h.skip_request);
    let mut h = handler(ApiVersion::V1_1);
    assert_eq!(h.handle_cmd(&cmd, &None), Err(CommandError::MissingFile));
    assert!(query(&h).is_empty());
    assert!(!h.skip_request);
}

#[test]
fn flash_negotiation_names_file_length_and_node() {
    let file = Some(FileInfo { name: s("os.img"), size: 200_000 });
    let args = FlashArgs {
        local: false,
        image_path: s("/home/me/os.img"),
        node: 1,
        sha256: Some(s("feed")),
        skip_crc: true,
    };
    let mut h = handler(ApiVersion::V1_1);
    assert_eq!(h.handle_flash(&args, &file), Ok(Plan::UploadStreamed));
    assert_eq!(
        query(&h),
        &vec![
            pair("opt", "set"),
            pair("type", "flash"),
            pair("file", "os.img"),
            num("length", 200_000),
            num("node", 0),
            pair("sha256", "feed"),
            Param::Flag(s("skip_crc")),
        ]
    );
    assert!(h.skip_request);
    assert_eq!(h.response_printer, None);

    let plain = FlashArgs { sha256: None, skip_crc: false, ..args.clone() };
    let mut h = handler(ApiVersion::V1);
    assert_eq!(h.handle_cmd(&Commands::Flash(plain.clone()), &file), Ok(Plan::UploadWhole));
    assert_eq!(
        query(&h),
        &vec![
            pair("opt", "set"),
            pair("type", "flash"),
            pair("file", "os.img"),
            num("length", 200_000),
            num("node", 0),
        ]
    );

    let mut h = handler(ApiVersion::V1_1);
    assert_eq!(h.handle_flash(&plain, &None), Err(CommandError::MissingFile));
    let bad = FlashArgs { node: 0, ..plain };
    assert_eq!(h.handle_flash(&bad, &file), Err(CommandError::InvalidNode));
    assert!(query(&h).is_empty());
    assert!(!h.skip_request);
}

#[test]
fn local_flash_names_the_path_on_the_controller() {
    let args = FlashArgs {
        local: true,
        image_path: s("/mnt/sdcard/os.img"),
        node: 3,
        sha256: Some(s("ignored")),
        skip_crc: true,
    };
    let mut h = handler(ApiVersion::V1_1);
    assert_eq!(h.handle_flash(&args, &None), Ok(Plan::FlashLocal));
    assert_eq!(
        query(&h),
        &vec![
            pair("opt", "set"),
            pair("type", "flash"),
            Param::Flag(s("local")),
            pair("file", "/mnt/sdcard/os.img"),
            num("node", 2),
        ]
    );
    assert!(h.skip_request);
    let mut h = handler(ApiVersion::V1_1);
    assert_eq!(h.handle_local_file_upload(&args), Ok(()));
    assert_eq!(query(&h).len(), 5);
    assert!(!h.skip_request);
    let bad = FlashArgs { node: 5, ..args };
    assert_eq!(h.handle_local_file_upload(&bad), Err(CommandError::InvalidNode));
    assert_eq!(h.handle_flash(&bad, &None), Err(CommandError::InvalidNode));
    assert_eq!(query(&h).len(), 5);
}

#[test]
fn eeprom_is_no_request() {
    let mut h = handler(ApiVersion::V1_1);
    let cmd = Commands::Eeprom(EepromArgs { cmd: GetSet::Get, attribute: None });
    assert_eq!(h.handle_cmd(&cmd, &None), Ok(Plan::Eeprom));
    assert!(query(&h).is_empty());
    assert!(h.skip_request);
}

#[test]
fn upload_request_goes_to_the_handle() {
    let mut h = handler(ApiVersion::V1_1);
    h.handle_info();
    let up = h.upload_request(7, 200_000).unwrap();
    assert_eq!(up.method, Method::Post);
    assert_eq!(up.url().route, Route::Upload(7));
    assert_eq!(up.url().base, "https://turingpi.local/api/bmc");
    assert!(up.url().query.is_empty());
    assert_eq!(up.multipart, Some(Payload::Chunked { length: 200_000 }));
    assert_eq!(up.user_agent, None);
    assert_eq!(
        h.bulk_payload(s("os.img")),
        Payload::Whole { file_name: s("os.img") }
    );
}

#[test]
fn progress_is_polled_with_a_query_of_its_own() {
    let mut h = handler(ApiVersion::V1_1);
    h.handle_reboot();
    let poll = h.progress_request();
    assert_eq!(poll.url().query, vec![pair("opt", "get"), pair("type", "flash")]);
    assert_eq!(poll.method, Method::Get);
    assert_eq!(poll.url().route, Route::Api);
    assert_eq!(poll.url().base, h.request.url().base);
    assert_eq!(poll.user_agent, h.request.user_agent);
    assert_eq!(query(&h).len(), 2);
}

#[test]
fn payload_is_the_first_element_of_response() {
    let doc = Json::parse(b"{\"response\":[{\"result\":\"ok\"}, 2]}");
    assert_eq!(payload(&doc).unwrap().text, "{\"result\":\"ok\"}");
    assert_eq!(payload(&None), Err(ResponseError::NotJson));
    assert_eq!(payload(&Json::parse(b"{\"other\":1}")), Err(ResponseError::MissingResponse));
    assert_eq!(payload(&Json::parse(b"{\"response\":5}")), Err(ResponseError::NotAnArray));
    assert_eq!(payload(&Json::parse(b"{\"response\":[]}")), Err(ResponseError::Empty));
    assert_eq!(payload(&Json::parse(b"[1]")), Err(ResponseError::MissingResponse));

    let h = handler(ApiVersion::V1_1);
    assert_eq!(h.answer(&doc).unwrap().text, "{\"result\":\"ok\"}");
    assert_eq!(h.answer(&None), Err(ResponseError::NotJson));
    let raw = LegacyHandler::new(s("h"), true, ApiVersion::V1, (None, None), "TPI").unwrap();
    assert_eq!(raw.answer(&doc).unwrap().text, "{\"response\":[{\"result\":\"ok\"},2]}");
    assert_eq!(raw.answer(&Json::parse(b"{}")).unwrap().text, "{}");
    assert_eq!(raw.answer(&None), Err(ResponseError::NotJson));
}

#[test]
fn handle_is_read_from_the_negotiation() {
    assert_eq!(negotiated_handle(200, b"{\"handle\":7}".to_vec()), Ok(7));
    assert_eq!(negotiated_handle(200, b"{\"handle\":\"7\"}".to_vec()), Err(TransferError::MissingHandle));
    assert_eq!(negotiated_handle(200, b"{}".to_vec()), Err(TransferError::MissingHandle));
    assert_eq!(negotiated_handle(200, b"oops".to_vec()), Err(TransferError::Malformed));
    assert_eq!(
        negotiated_handle(400, b"{\"response\":\"node busy\"}".to_vec()),
        Err(TransferError::Refused {
            status: 400,
            body: b"{\"response\":\"node busy\"}".to_vec(),
            detail: Some(s("\"node busy\"")),
        })
    );
    assert_eq!(
        negotiated_handle(503, b"down".to_vec()),
        Err(TransferError::Refused { status: 503, body: b"down".to_vec(), detail: None })
    );
    assert_eq!(read_handle(299, vec![], Json::parse(b"{\"handle\":0}")), Ok(0));
    assert_eq!(read_handle(200, vec![], None), Err(TransferError::Malformed));
}

#[test]
fn user_agent_names_the_platform() {
    assert_eq!(user_agent(&None), "TPI");
    let platform = Platform { sysname: s("Linux"), machine: s("x86_64"), osname: s("GNU/Linux") };
    assert_eq!(user_agent(&Some(platform)), "TPI (Linux;x86_64;GNU/Linux)");
}

#[test]
fn refusals_have_their_words() {
    assert_eq!(CommandError::MissingCmd.message(), "uart set command requires `--cmd` argument.");
    assert_eq!(CommandError::MissingNode.message(), "`--node` argument missing");
    assert_eq!(CommandError::InvalidNode.message(), "`--node` must be one of 1 to 4");
    assert_eq!(CommandError::MissingFile.message(), "file_name could not be extracted");
    assert_eq!(CommandError::ModeRefused.message(), "could not execute Normal mode");
    assert_eq!(ResponseError::NotJson.message(), "error parsing server response");
    assert_eq!(
        CommandError::MissingDeviceOrSpeed.message(),
        "Device and speed arguments are required for the set command"
    );
    assert_eq!(
        ResponseError::MissingResponse.message(),
        "expected 'response' key in JSON payload"
    );
    assert_eq!(ResponseError::NotAnArray.message(), "API error: `response` is not an array");
    assert_eq!(ResponseError::Empty.message(), "API error: `response` is empty");
}
