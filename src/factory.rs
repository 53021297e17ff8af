//! Factory commands of the factory firmware variant. They reuse the
//! bootloader-jump opcode with a `[sub-command, value]` payload.
use crate::via::Command;
use vstd::prelude::*;

verus! {

/// Sub-commands of the factory command.
#[derive(Clone, Copy, Debug, PartialEq, Eq, Structural)]
pub enum FactorySubcommand {
    /// Act as if the key with the given keycode was pressed.
    EmulateKey,
    /// Light up the LED with the given index.
    LightLed,
}

pub open spec fn spec_factory_code(sub: FactorySubcommand) -> u8 {
    match sub {
        FactorySubcommand::EmulateKey => 0x01,
        FactorySubcommand::LightLed => 0x02,
    }
}

impl FactorySubcommand {
    pub fn code(self) -> (r: u8)
        ensures
            r == spec_factory_code(self),
    {
        match self {
            FactorySubcommand::EmulateKey => 0x01,
            FactorySubcommand::LightLed => 0x02,
        }
    }
}

/// The factory command `sub` with its value.
pub fn factory_command(sub: FactorySubcommand, value: u8) -> (r: Command)
    ensures
        r == (Command::FactoryCommand { sub_command: spec_factory_code(sub), value }),
{
    Command::FactoryCommand { sub_command: sub.code(), value }
}

/// Emulates a key press of `code`.
pub fn factory_emulate_key(code: u8) -> (r: Command)
    ensures
        r == (Command::FactoryCommand {
            sub_command: spec_factory_code(FactorySubcommand::EmulateKey),
            value: code,
        }),
{
    factory_command(FactorySubcommand::EmulateKey, code)
}

/// Lights up the LED at `index`.
pub fn factory_light_led(index: u8) -> (r: Command)
    ensures
        r == (Command::FactoryCommand {
            sub_command: spec_factory_code(FactorySubcommand::LightLed),
            value: index,
        }),
{
    factory_command(FactorySubcommand::LightLed, index)
}

} // verus!
