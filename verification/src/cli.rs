//! The command vocabulary: which operation the user asked for, with its
//! arguments as plain values.

use vstd::prelude::*;

verus! {

#[derive(Clone, Copy, PartialEq, Eq, Structural, Debug)]
pub enum GetSet {
    Get,
    /// Write the value (the `set` of the command line).
    Put,
}

#[derive(Clone, Copy, PartialEq, Eq, Structural, Debug)]
pub enum ModeCmd {
    /// Clear any advanced mode.
    Normal,
    /// Reboot a compute module and expose its eMMC as a mass storage device.
    Msd,
}

#[derive(Clone, Copy, PartialEq, Eq, Structural, Debug)]
pub enum UsbCmd {
    /// The node is a USB device; the controller or the USB-A port is host.
    Device,
    /// The node is USB host.
    Host,
    /// The node goes into flashing mode, USB_OTG in device mode.
    Flash,
    Status,
}

#[derive(Clone, Copy, PartialEq, Eq, Structural, Debug)]
pub enum PowerCmd {
    On,
    Off,
    Reset,
    Status,
}

#[derive(Clone, Copy, PartialEq, Eq, Structural, Debug)]
pub enum EthCmd {
    Reset,
}

#[derive(Clone, Copy, PartialEq, Eq, Structural, Debug)]
pub enum CoolingCmd {
    /// Set a device's speed (the `set` of the command line).
    Put,
    Status,
}

#[derive(Clone, Copy, PartialEq, Eq, Structural, Debug)]
pub enum ApiVersion {
    V1,
    V1_1,
}

impl ApiVersion {
    /// The URL scheme that this version of the API is served over.
    pub open spec fn spec_scheme(self) -> Seq<char> {
        match self {
            ApiVersion::V1 => "http"@,
            ApiVersion::V1_1 => "https"@,
        }
    }

    pub fn scheme(&self) -> (r: &'static str)
        ensures
            r@ == self.spec_scheme(),
    {
        match self {
            ApiVersion::V1 => "http",
            ApiVersion::V1_1 => "https",
        }
    }
}

#[derive(Clone, Debug)]
pub struct EepromArgs {
    pub cmd: GetSet,
    pub attribute: Option<String>,
}

#[derive(Clone, Debug)]
pub struct EthArgs {
    pub cmd: EthCmd,
}

#[derive(Clone, Debug)]
pub struct AdvancedArgs {
    pub mode: ModeCmd,
    /// One of 1 to 4.
    pub node: u8,
}

#[derive(Clone, Debug)]
pub struct UartArgs {
    pub action: GetSet,
    /// One of 1 to 4.
    pub node: u8,
    pub cmd: Option<String>,
}

#[derive(Clone, Debug)]
pub struct UsbArgs {
    /// The mode to set the given node in.
    pub mode: UsbCmd,
    /// Route the USB bus to the controller chip instead of USB-A.
    pub bmc: bool,
    /// One of 1 to 4.
    pub node: Option<u8>,
}

#[derive(Clone, Debug)]
pub struct FirmwareArgs {
    /// Path of the firmware file.
    pub file: String,
    /// Checksum by which the controller verifies what it received.
    pub sha256: Option<String>,
}

#[derive(Clone, Debug)]
pub struct FlashArgs {
    /// The image is on a filesystem that the controller itself can read.
    pub local: bool,
    /// Path of the image.
    pub image_path: String,
    /// One of 1 to 4.
    pub node: u8,
    /// Checksum by which the controller verifies the image.
    pub sha256: Option<String>,
    /// Skip the CRC check of the areas written on the node.
    pub skip_crc: bool,
}

#[derive(Clone, Debug)]
pub struct PowerArgs {
    pub cmd: PowerCmd,
    /// One of 1 to 4; none selects all nodes.
    pub node: Option<u8>,
}

#[derive(Clone, Debug)]
pub struct CoolingArgs {
    pub cmd: CoolingCmd,
    /// The cooling device; needed by `Put`.
    pub device: Option<String>,
    /// The speed; needed by `Put`.
    pub speed: Option<u32>,
}

#[derive(Clone, Debug)]
pub enum Commands {
    /// Power on/off or reset specific nodes.
    Power(PowerArgs),
    /// Change the USB device/host configuration.
    Usb(UsbArgs),
    /// Upgrade the firmware of the controller.
    Firmware(FirmwareArgs),
    /// Flash a given node.
    Flash(FlashArgs),
    /// Configure the on-board Ethernet switch.
    Eth(EthArgs),
    /// Read or write over UART.
    Uart(UartArgs),
    /// Advanced node modes.
    Advanced(AdvancedArgs),
    /// Configure the cooling devices.
    Cooling(CoolingArgs),
    /// Read or write the board's EEPROM.
    Eeprom(EepromArgs),
    /// Print controller info.
    Info,
    /// Reboot the controller chip.
    Reboot,
}

} // verus!
