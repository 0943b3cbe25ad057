use vstd::prelude::*;

use crate::api::Keyboard;
use crate::text::{decimal, push_signed, push_unsigned};
use crate::utils::{color_channels, hex_to_rgb, is_hex_color};

verus! {

/// The exit status of a command that failed.
pub const FAILURE_EXIT_CODE: i32 = 1;

/// A parsed command line.
#[derive(Debug, Clone)]
pub struct Cli {
    pub command: Commands,
}

/// The commands of the command line, with their arguments.
#[derive(Debug, Clone)]
pub enum Commands {
    /// Show the status, as a report or (`json`) as JSON.
    Status { json: bool },
    /// List the keyboards the daemon knows.
    List,
    /// Connect the keyboard with the given index.
    Connect { index: usize },
    /// Connect the first keyboard the daemon detects.
    ConnectAny,
    /// Select a layer of the connected keyboard.
    SetLayer { index: usize },
    /// Set the color of one LED.
    SetRGB { led: usize, color: String, sustain: i32 },
    /// Set the color of every LED.
    SetRGBAll { color: String, sustain: i32 },
    /// Give the LEDs back their own colors.
    RestoreRGBLeds,
    /// Turn a status LED on, or off.
    SetStatusLed { led: usize, off: bool, sustain: i32 },
    /// Give the status LEDs back their own state.
    RestoreStatusLeds,
    /// Raise the brightness by some steps.
    IncreaseBrightness { steps: i32 },
    /// Lower the brightness by some steps.
    DecreaseBrightness { steps: i32 },
    /// Disconnect the connected keyboard.
    Disconnect,
}

/// The call a command makes on the client, with its arguments.
#[derive(Clone, Copy, Debug, PartialEq, Eq, Structural)]
pub enum Invocation {
    GetStatus,
    ListKeyboards,
    Connect { index: usize },
    ConnectAny,
    Disconnect,
    SetLayer { index: usize },
    SetRgbLed { index: usize, r: u8, g: u8, b: u8, sustain: i32 },
    SetRgbAll { r: u8, g: u8, b: u8, sustain: i32 },
    RestoreRgbLeds,
    SetStatusLed { led: usize, on: bool, sustain: i32 },
    RestoreStatusLeds,
    UpdateBrightness { increase: bool, steps: i32 },
}

/// The message of a color argument that is not a hex color.
pub open spec fn color_error_text(color: Seq<char>) -> Seq<char> {
    color + " is not a valid hex color"@
}

/// The call a command makes, or the message it fails with before any call: a color
/// argument must be a hex color.
pub open spec fn planned(cmd: Commands) -> Result<Invocation, Seq<char>> {
    match cmd {
        Commands::Status { .. } => Ok(Invocation::GetStatus),
        Commands::List => Ok(Invocation::ListKeyboards),
        Commands::Connect { index } => Ok(Invocation::Connect { index }),
        Commands::ConnectAny => Ok(Invocation::ConnectAny),
        Commands::SetLayer { index } => Ok(Invocation::SetLayer { index }),
        Commands::SetRGB { led, color, sustain } => if is_hex_color(color@) {
            let c = color_channels(color@);
            Ok(Invocation::SetRgbLed { index: led, r: c.0 as u8, g: c.1 as u8, b: c.2 as u8, sustain })
        } else {
            Err(color_error_text(color@))
        },
        Commands::SetRGBAll { color, sustain } => if is_hex_color(color@) {
            let c = color_channels(color@);
            Ok(Invocation::SetRgbAll { r: c.0 as u8, g: c.1 as u8, b: c.2 as u8, sustain })
        } else {
            Err(color_error_text(color@))
        },
        Commands::RestoreRGBLeds => Ok(Invocation::RestoreRgbLeds),
        Commands::SetStatusLed { led, off, sustain } => Ok(
            Invocation::SetStatusLed { led, on: !off, sustain },
        ),
        Commands::RestoreStatusLeds => Ok(Invocation::RestoreStatusLeds),
        Commands::IncreaseBrightness { steps } => Ok(
            Invocation::UpdateBrightness { increase: true, steps },
        ),
        Commands::DecreaseBrightness { steps } => Ok(
            Invocation::UpdateBrightness { increase: false, steps },
        ),
        Commands::Disconnect => Ok(Invocation::Disconnect),
    }
}

/// The message of a color argument that is not a hex color.
fn color_error(color: &String) -> (r: String)
    ensures
        r@ == color_error_text(color@),
{
    let mut r = color.clone();
    r.append(" is not a valid hex color");
    r
}

/// The call a command makes on the client. A color argument is converted first: one
/// that is not a hex color ends the command with a message before any call.
pub fn invocation(cmd: &Commands) -> (r: Result<Invocation, String>)
    ensures
        r matches Ok(inv) ==> planned(*cmd) == Ok::<Invocation, Seq<char>>(inv),
        r matches Err(m) ==> planned(*cmd) == Err::<Invocation, Seq<char>>(m@),
{
    match cmd {
        Commands::Status { .. } => Ok(Invocation::GetStatus),
        Commands::List => Ok(Invocation::ListKeyboards),
        Commands::Connect { index } => Ok(Invocation::Connect { index: *index }),
        Commands::ConnectAny => Ok(Invocation::ConnectAny),
        Commands::SetLayer { index } => Ok(Invocation::SetLayer { index: *index }),
        Commands::SetRGB { led, color, sustain } => match hex_to_rgb(color.as_str()) {
            Ok((r, g, b)) => Ok(
                Invocation::SetRgbLed { index: *led, r, g, b, sustain: *sustain },
            ),
            Err(_) => Err(color_error(color)),
        },
        Commands::SetRGBAll { color, sustain } => match hex_to_rgb(color.as_str()) {
            Ok((r, g, b)) => Ok(Invocation::SetRgbAll { r, g, b, sustain: *sustain }),
            Err(_) => Err(color_error(color)),
        },
        Commands::RestoreRGBLeds => Ok(Invocation::RestoreRgbLeds),
        Commands::SetStatusLed { led, off, sustain } => Ok(
            Invocation::SetStatusLed { led: *led, on: !*off, sustain: *sustain },
        ),
        Commands::RestoreStatusLeds => Ok(Invocation::RestoreStatusLeds),
        Commands::IncreaseBrightness { steps } => Ok(
            Invocation::UpdateBrightness { increase: true, steps: *steps },
        ),
        Commands::DecreaseBrightness { steps } => Ok(
            Invocation::UpdateBrightness { increase: false, steps: *steps },
        ),
        Commands::Disconnect => Ok(Invocation::Disconnect),
    }
}

/// The line a command prints once its call has returned, or `None` for the two
/// commands that print what the call returned instead (status and list).
pub open spec fn confirmation_text(cmd: Commands) -> Option<Seq<char>> {
    match cmd {
        Commands::Status { .. } => None,
        Commands::List => None,
        Commands::Connect { index } => Some("Connected to keyboard "@ + decimal(index as int)),
        Commands::ConnectAny => Some("Connected to the first keyboard detected by keymapp"@),
        Commands::SetLayer { index } => Some("Layer set to "@ + decimal(index as int)),
        Commands::SetRGB { led, color, .. } => Some(
            "LED "@ + decimal(led as int) + " set to color "@ + color@,
        ),
        Commands::SetRGBAll { color, .. } => Some("All LEDs set to color "@ + color@),
        Commands::RestoreRGBLeds => Some("All LEDs restored to their default color"@),
        Commands::SetStatusLed { led, off, .. } => Some(
            "Status LED "@ + decimal(led as int) + " turned "@ + if off {
                "off"@
            } else {
                "on"@
            },
        ),
        Commands::RestoreStatusLeds => Some("All status LEDs restored to their default state"@),
        Commands::IncreaseBrightness { .. } => Some("Brightness increased"@),
        Commands::DecreaseBrightness { .. } => Some("Brightness decreased"@),
        Commands::Disconnect => Some("Disconnected from the currently connected keyboard"@),
    }
}

/// The line a command prints once its call has returned, or `None` for status and
/// list, which print what the call returned.
pub fn confirmation(cmd: &Commands) -> (r: Option<String>)
    ensures
        r matches Some(line) ==> confirmation_text(*cmd) == Some(line@),
        r is None ==> confirmation_text(*cmd) is None,
{
    match cmd {
        Commands::Status { .. } => None,
        Commands::List => None,
        Commands::Connect { index } => {
            let mut line = String::from_str("Connected to keyboard ");
            push_unsigned(&mut line, *index as u64);
            Some(line)
        },
        Commands::ConnectAny => Some(
            String::from_str("Connected to the first keyboard detected by keymapp"),
        ),
        Commands::SetLayer { index } => {
            let mut line = String::from_str("Layer set to ");
            push_unsigned(&mut line, *index as u64);
            Some(line)
        },
        Commands::SetRGB { led, color, .. } => {
            let mut line = String::from_str("LED ");
            push_unsigned(&mut line, *led as u64);
            line.append(" set to color ");
            line.append(color.as_str());
            Some(line)
        },
        Commands::SetRGBAll { color, .. } => {
            let mut line = String::from_str("All LEDs set to color ");
            line.append(color.as_str());
            Some(line)
        },
        Commands::RestoreRGBLeds => Some(
            String::from_str("All LEDs restored to their default color"),
        ),
        Commands::SetStatusLed { led, off, .. } => {
            let mut line = String::from_str("Status LED ");
            push_unsigned(&mut line, *led as u64);
            line.append(" turned ");
            line.append(
                if *off {
                    "off"
                } else {
                    "on"
                },
            );
            Some(line)
        },
        Commands::RestoreStatusLeds => Some(
            String::from_str("All status LEDs restored to their default state"),
        ),
        Commands::IncreaseBrightness { .. } => Some(String::from_str("Brightness increased")),
        Commands::DecreaseBrightness { .. } => Some(String::from_str("Brightness decreased")),
        Commands::Disconnect => Some(
            String::from_str("Disconnected from the currently connected keyboard"),
        ),
    }
}

/// The line that lists a keyboard: its id, its name, and whether it is connected.
pub open spec fn keyboard_line_text(k: Keyboard) -> Seq<char> {
    decimal(k.id as int) + ": "@ + k.friendly_name@ + " "@ + if k.is_connected {
        "(connected)"@
    } else {
        ""@
    }
}

/// The line that lists a keyboard: `id: name`, followed by `(connected)` for the
/// connected one.
pub fn keyboard_line(k: &Keyboard) -> (r: String)
    ensures
        r@ == keyboard_line_text(*k),
{
    let mut line = String::new();
    push_signed(&mut line, k.id as i64);
    line.append(": ");
    line.append(k.friendly_name.as_str());
    line.append(" ");
    if k.is_connected {
        line.append("(connected)");
    }
    proof {
        reveal_strlit("");
    }
    assert(line@ =~= keyboard_line_text(*k));
    line
}

} // verus!
