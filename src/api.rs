use vstd::prelude::*;

use crate::text::{decimal, push_signed};

verus! {

/// The version of this client, reported beside the daemon's.
pub const KONTROLL_VERSION: &'static str = "1.0.0";

/// The remote operations of the Keymapp daemon.
#[derive(Clone, Copy, Debug, PartialEq, Eq, Structural)]
pub enum Operation {
    GetStatus,
    GetKeyboards,
    ConnectKeyboard,
    ConnectAnyKeyboard,
    DisconnectKeyboard,
    SetLayer,
    SetRgbLed,
    SetRgbAll,
    SetStatusLed,
    IncreaseBrightness,
    DecreaseBrightness,
}

/// The kind of failure an operation ended with.
#[derive(Clone, Copy, Debug, PartialEq, Eq, Structural)]
pub enum ErrorKind {
    /// The daemon's socket, or the directory it lives in, could not be found.
    ConnectionUnavailable,
    /// The daemon did not answer the connection attempt in time.
    ConnectionTimedOut,
    /// The transport could not be set up.
    ConnectionFailed,
    /// The daemon, or the channel to it, failed the given operation.
    RemoteCallFailed(Operation),
    /// A color string is not six hexadecimal digits.
    InvalidColorFormat,
    /// A grid position lies outside the layout.
    PositionOutOfRange,
    /// A brightness change asks for a number of steps outside 1 to 255.
    InvalidStepCount,
}

/// An error of the client: its kind and the message shown to the user.
#[derive(Debug, Clone)]
pub struct ApiError {
    pub kind: ErrorKind,
    pub message: String,
}

/// An error as a value: its kind and its message.
pub open spec fn error_view(e: ApiError) -> (ErrorKind, Seq<char>) {
    (e.kind, e.message@)
}

/// A reply as a value: what the daemon answered, or the message of the failure.
pub open spec fn reply_view<T>(reply: Result<T, String>) -> Result<T, Seq<char>> {
    match reply {
        Ok(v) => Ok(v),
        Err(m) => Err(m@),
    }
}

/// A result as a value, its error taken by `error_view`.
pub open spec fn result_view<T>(r: Result<T, ApiError>) -> Result<T, (ErrorKind, Seq<char>)> {
    match r {
        Ok(v) => Ok(v),
        Err(e) => Err(error_view(e)),
    }
}

/// A result that may not have come yet, as a value.
pub open spec fn outcome_view<T>(r: Option<Result<T, ApiError>>) -> Option<
    Result<T, (ErrorKind, Seq<char>)>,
> {
    match r {
        Some(o) => Some(result_view(o)),
        None => None,
    }
}

/// What the message of a failed operation starts with.
pub open spec fn failure_prefix(op: Operation) -> Seq<char> {
    match op {
        Operation::GetStatus => "Failed to get status: "@,
        Operation::GetKeyboards => "Failed to get keyboards: "@,
        Operation::ConnectKeyboard => "Failed to connect: "@,
        Operation::ConnectAnyKeyboard => "Failed to connect: "@,
        Operation::DisconnectKeyboard => "Failed to disconnect: "@,
        Operation::SetLayer => "Failed to set layer: "@,
        Operation::SetRgbLed => "Failed to set rgb: "@,
        Operation::SetRgbAll => "Failed to set rgb: "@,
        Operation::SetStatusLed => "Failed to set status led: "@,
        Operation::IncreaseBrightness => "Failed to increase brightness: "@,
        Operation::DecreaseBrightness => "Failed to decrease brightness: "@,
    }
}

/// The error of an operation that the daemon failed with the message `detail`.
pub open spec fn remote_failure(op: Operation, detail: Seq<char>) -> (ErrorKind, Seq<char>) {
    (ErrorKind::RemoteCallFailed(op), failure_prefix(op) + detail)
}

fn failure_prefix_text(op: Operation) -> (r: &'static str)
    ensures
        r@ == failure_prefix(op),
{
    match op {
        Operation::GetStatus => "Failed to get status: ",
        Operation::GetKeyboards => "Failed to get keyboards: ",
        Operation::ConnectKeyboard => "Failed to connect: ",
        Operation::ConnectAnyKeyboard => "Failed to connect: ",
        Operation::DisconnectKeyboard => "Failed to disconnect: ",
        Operation::SetLayer => "Failed to set layer: ",
        Operation::SetRgbLed => "Failed to set rgb: ",
        Operation::SetRgbAll => "Failed to set rgb: ",
        Operation::SetStatusLed => "Failed to set status led: ",
        Operation::IncreaseBrightness => "Failed to increase brightness: ",
        Operation::DecreaseBrightness => "Failed to decrease brightness: ",
    }
}

/// The error of `op` failed by the daemon with the message `detail`.
pub fn remote_error(op: Operation, detail: &str) -> (e: ApiError)
    ensures
        error_view(e) == remote_failure(op, detail@),
{
    let mut message = String::from_str(failure_prefix_text(op));
    message.append(detail);
    ApiError { kind: ErrorKind::RemoteCallFailed(op), message }
}

/// What the daemon answers to an operation that reports only whether it succeeded.
pub open spec fn success_outcome(op: Operation, reply: Result<bool, Seq<char>>) -> Result<
    bool,
    (ErrorKind, Seq<char>),
> {
    match reply {
        Ok(done) => Ok(done),
        Err(m) => Err(remote_failure(op, m)),
    }
}

/// The result of `op` given the daemon's reply: its success flag, or the failure
/// that the call ended with.
pub fn success_result(op: Operation, reply: Result<bool, String>) -> (r: Result<bool, ApiError>)
    ensures
        result_view(r) == success_outcome(op, reply_view(reply)),
{
    match reply {
        Ok(done) => Ok(done),
        Err(m) => Err(remote_error(op, m.as_str())),
    }
}

/// A request to the daemon, with the fields it carries on the wire.
#[derive(Clone, Copy, Debug, PartialEq, Eq, Structural)]
pub enum Request {
    GetStatus,
    GetKeyboards,
    ConnectKeyboard { id: i32 },
    ConnectAnyKeyboard,
    DisconnectKeyboard,
    SetLayer { layer: i32 },
    SetRgbLed { led: i32, red: i32, green: i32, blue: i32, sustain: i32 },
    SetRgbAll { red: i32, green: i32, blue: i32, sustain: i32 },
    SetStatusLed { led: i32, on: bool, sustain: i32 },
    IncreaseBrightness,
    DecreaseBrightness,
}

/// The operation a request asks for.
pub open spec fn request_operation(req: Request) -> Operation {
    match req {
        Request::GetStatus => Operation::GetStatus,
        Request::GetKeyboards => Operation::GetKeyboards,
        Request::ConnectKeyboard { .. } => Operation::ConnectKeyboard,
        Request::ConnectAnyKeyboard => Operation::ConnectAnyKeyboard,
        Request::DisconnectKeyboard => Operation::DisconnectKeyboard,
        Request::SetLayer { .. } => Operation::SetLayer,
        Request::SetRgbLed { .. } => Operation::SetRgbLed,
        Request::SetRgbAll { .. } => Operation::SetRgbAll,
        Request::SetStatusLed { .. } => Operation::SetStatusLed,
        Request::IncreaseBrightness => Operation::IncreaseBrightness,
        Request::DecreaseBrightness => Operation::DecreaseBrightness,
    }
}

impl Request {
    /// The operation this request asks for.
    pub fn operation(&self) -> (op: Operation)
        ensures
            op == request_operation(*self),
    {
        match self {
            Request::GetStatus => Operation::GetStatus,
            Request::GetKeyboards => Operation::GetKeyboards,
            Request::ConnectKeyboard { .. } => Operation::ConnectKeyboard,
            Request::ConnectAnyKeyboard => Operation::ConnectAnyKeyboard,
            Request::DisconnectKeyboard => Operation::DisconnectKeyboard,
            Request::SetLayer { .. } => Operation::SetLayer,
            Request::SetRgbLed { .. } => Operation::SetRgbLed,
            Request::SetRgbAll { .. } => Operation::SetRgbAll,
            Request::SetStatusLed { .. } => Operation::SetStatusLed,
            Request::IncreaseBrightness => Operation::IncreaseBrightness,
            Request::DecreaseBrightness => Operation::DecreaseBrightness,
        }
    }
}

/// The most steps one brightness change may take.
pub const MAX_BRIGHTNESS_STEPS: i32 = 255;

/// The message of a brightness change with a step count outside 1 to 255.
pub open spec fn step_count_message() -> Seq<char> {
    "Brightness steps must be between 1 and 255"@
}

/// A brightness change in progress: one single-step request is sent at a time, and
/// the next only once the daemon has reported success for the one before.
#[derive(Clone, Copy, Debug, PartialEq, Eq, Structural)]
pub struct BrightnessUpdate {
    /// Whether the brightness goes up or down.
    pub increase: bool,
    /// How many steps were asked for.
    pub steps: u8,
    /// How many steps the daemon has answered so far.
    pub answered: u8,
}

/// The request that performs one step of a change up (`increase`) or down.
pub open spec fn step_request(increase: bool) -> Request {
    if increase {
        Request::IncreaseBrightness
    } else {
        Request::DecreaseBrightness
    }
}

impl BrightnessUpdate {
    /// A change under way: at least one step was asked for and some are unanswered.
    pub open spec fn wf(self) -> bool {
        1 <= self.steps && self.answered < self.steps
    }

    /// The operation each step performs.
    pub open spec fn operation(self) -> Operation {
        request_operation(step_request(self.increase))
    }

    /// The state after the daemon replies to the pending step, and what the change
    /// then returns (`None` while a further step is to be sent).
    pub open spec fn after_reply(self, reply: Result<bool, Seq<char>>) -> (
        BrightnessUpdate,
        Option<Result<bool, (ErrorKind, Seq<char>)>>,
    ) {
        let next = BrightnessUpdate { answered: (self.answered + 1) as u8, ..self };
        match reply {
            Ok(true) => if next.answered == self.steps {
                (next, Some(Ok(true)))
            } else {
                (next, None)
            },
            _ => (next, Some(success_outcome(self.operation(), reply))),
        }
    }

    /// Starts a change of `steps` steps up (`increase`) or down. No request is sent
    /// for a step count outside 1 to 255: that is an error.
    pub fn new(increase: bool, steps: i32) -> (r: Result<BrightnessUpdate, ApiError>)
        ensures
            1 <= steps <= MAX_BRIGHTNESS_STEPS <==> r is Ok,
            r matches Ok(u) ==> u.wf() && u.increase == increase && u.steps == steps
                && u.answered == 0,
            r matches Err(e) ==> error_view(e) == (
                ErrorKind::InvalidStepCount,
                step_count_message(),
            ),
    {
        if steps < 1 || steps > MAX_BRIGHTNESS_STEPS {
            return Err(
                ApiError {
                    kind: ErrorKind::InvalidStepCount,
                    message: String::from_str("Brightness steps must be between 1 and 255"),
                },
            );
        }
        Ok(BrightnessUpdate { increase, steps: steps as u8, answered: 0 })
    }

    /// The request for the pending step.
    pub fn request(&self) -> (r: Request)
        ensures
            r == step_request(self.increase),
    {
        if self.increase {
            Request::IncreaseBrightness
        } else {
            Request::DecreaseBrightness
        }
    }

    /// Takes the daemon's reply to the pending step. Returns `None` when the next step
    /// is to be sent, or the result of the whole change: `true` once every step has
    /// succeeded, `false` as soon as one reports failure, or the error of a failed
    /// call. Steps taken before a failure stay applied.
    pub fn on_reply(&mut self, reply: Result<bool, String>) -> (r: Option<
        Result<bool, ApiError>,
    >)
        requires
            old(self).wf(),
        ensures
            (*final(self), outcome_view(r)) == old(self).after_reply(reply_view(reply)),
            r is None ==> final(self).wf(),
    {
        self.answered = self.answered + 1;
        let op = if self.increase {
            Operation::IncreaseBrightness
        } else {
            Operation::DecreaseBrightness
        };
        match reply {
            Ok(true) => if self.answered == self.steps {
                Some(Ok(true))
            } else {
                None
            },
            Ok(false) => Some(Ok(false)),
            Err(m) => Some(Err(remote_error(op, m.as_str()))),
        }
    }
}

/// Drives a brightness change with the daemon's replies, taken in order: how many
/// requests it sends, and what it returns (`None` if the replies run out first).
pub open spec fn run_update(u: BrightnessUpdate, replies: Seq<Result<bool, Seq<char>>>) -> (
    nat,
    Option<Result<bool, (ErrorKind, Seq<char>)>>,
)
    decreases replies.len(),
{
    if replies.len() == 0 {
        (0, None)
    } else {
        let (next, out) = u.after_reply(replies[0]);
        match out {
            Some(o) => (1, Some(o)),
            None => {
                let (n, o) = run_update(next, replies.drop_first());
                (n + 1, o)
            },
        }
    }
}

/// When the daemon reports success to every step, a change sends one request for
/// each step that is left and returns `true`.
pub proof fn lemma_update_all_steps_succeed(
    u: BrightnessUpdate,
    replies: Seq<Result<bool, Seq<char>>>,
)
    requires
        u.wf(),
        replies.len() >= u.steps - u.answered,
        forall|i: int| 0 <= i < u.steps - u.answered ==> replies[i] == Ok::<bool, Seq<char>>(true),
    ensures
        run_update(u, replies) == ((u.steps - u.answered) as nat, Some(
            Ok::<bool, (ErrorKind, Seq<char>)>(true),
        )),
    decreases u.steps - u.answered,
{
    assert(replies[0] == Ok::<bool, Seq<char>>(true));
    let (next, out) = u.after_reply(replies[0]);
    if u.answered + 1 < u.steps {
        let rest = replies.drop_first();
        assert forall|i: int| 0 <= i < next.steps - next.answered implies rest[i] == Ok::<
            bool,
            Seq<char>,
        >(true) by {
            assert(rest[i] == replies[i + 1]);
        }
        lemma_update_all_steps_succeed(next, rest);
    }
}

/// When the daemon reports success to the first `k` steps that are left and anything
/// else to the next one, a change sends exactly `k + 1` requests and returns what
/// that reply says: `false`, or the error of the failed call. The steps after it are
/// never requested.
pub proof fn lemma_update_stops_at_first_failure(
    u: BrightnessUpdate,
    replies: Seq<Result<bool, Seq<char>>>,
    k: int,
)
    requires
        u.wf(),
        0 <= k < u.steps - u.answered,
        k < replies.len(),
        forall|i: int| 0 <= i < k ==> replies[i] == Ok::<bool, Seq<char>>(true),
        replies[k] != Ok::<bool, Seq<char>>(true),
    ensures
        run_update(u, replies) == ((k + 1) as nat, Some(
            success_outcome(u.operation(), replies[k]),
        )),
    decreases k,
{
    let (next, out) = u.after_reply(replies[0]);
    if k > 0 {
        assert(replies[0] == Ok::<bool, Seq<char>>(true));
        let rest = replies.drop_first();
        assert forall|i: int| 0 <= i < k - 1 implies rest[i] == Ok::<bool, Seq<char>>(true) by {
            assert(rest[i] == replies[i + 1]);
        }
        assert(rest[k - 1] == replies[k]);
        lemma_update_stops_at_first_failure(next, rest, k - 1);
    }
}

/// A keyboard known to the daemon.
#[derive(Debug, Clone)]
pub struct Keyboard {
    pub id: i32,
    pub friendly_name: String,
    pub is_connected: bool,
}

/// The keyboard the daemon is connected to, as the status reports it.
#[derive(Debug, Clone)]
pub struct ConnectedKeyboard {
    pub friendly_name: String,
    pub firmware_version: String,
    pub current_layer: i32,
}

/// The daemon's answer to a status request.
#[derive(Debug, Clone)]
pub struct StatusReply {
    pub keymapp_version: String,
    pub connected_keyboard: Option<ConnectedKeyboard>,
}

/// The versions of Keymapp and of this client, and the connected keyboard if any.
#[derive(Debug, Clone)]
pub struct Status {
    pub keymapp_version: String,
    pub kontroll_version: String,
    pub keyboard: Option<ConnectedKeyboard>,
}

/// The status built from the daemon's reply, or the failure of the call.
pub fn status_result(reply: Result<StatusReply, String>) -> (r: Result<Status, ApiError>)
    ensures
        reply matches Ok(sr) ==> r matches Ok(st) && st.keymapp_version@ == sr.keymapp_version@
            && st.kontroll_version@ == KONTROLL_VERSION@ && st.keyboard == sr.connected_keyboard,
        reply matches Err(m) ==> r matches Err(e) && error_view(e) == remote_failure(
            Operation::GetStatus,
            m@,
        ),
{
    match reply {
        Ok(sr) => Ok(
            Status {
                keymapp_version: sr.keymapp_version,
                kontroll_version: String::from_str(KONTROLL_VERSION),
                keyboard: sr.connected_keyboard,
            },
        ),
        Err(m) => Err(remote_error(Operation::GetStatus, m.as_str())),
    }
}

/// The keyboards the daemon listed, in its order, or the failure of the call.
pub fn keyboards_result(reply: Result<Vec<Keyboard>, String>) -> (r: Result<
    Vec<Keyboard>,
    ApiError,
>)
    ensures
        reply matches Ok(ks) ==> r matches Ok(listed) && listed@ == ks@,
        reply matches Err(m) ==> r matches Err(e) && error_view(e) == remote_failure(
            Operation::GetKeyboards,
            m@,
        ),
{
    match reply {
        Ok(ks) => Ok(ks),
        Err(m) => Err(remote_error(Operation::GetKeyboards, m.as_str())),
    }
}

/// The lines of a status report that describe the connected keyboard.
pub open spec fn keyboard_text(k: Option<ConnectedKeyboard>) -> Seq<char> {
    match k {
        Some(k) => "Connected keyboard:\t"@ + k.friendly_name@ + "\nFirmware version:\t"@
            + k.firmware_version@ + "\nCurrent layer:\t\t"@ + decimal(k.current_layer as int),
        None => "No keyboard connected"@,
    }
}

/// The human-readable status report.
pub open spec fn status_text(st: Status) -> Seq<char> {
    "Keymapp version:\t"@ + st.keymapp_version@ + "\nKontroll version:\t"@
        + st.kontroll_version@ + "\n"@ + keyboard_text(st.keyboard) + "\n"@
}

impl Status {
    /// The human-readable report of this status: the two versions, then the
    /// connected keyboard's name, firmware and layer, or that none is connected.
    pub fn render(&self) -> (r: String)
        ensures
            r@ == status_text(*self),
    {
        let mut out = String::from_str("Keymapp version:\t");
        out.append(self.keymapp_version.as_str());
        out.append("\nKontroll version:\t");
        out.append(self.kontroll_version.as_str());
        out.append("\n");
        match &self.keyboard {
            Some(k) => {
                out.append("Connected keyboard:\t");
                out.append(k.friendly_name.as_str());
                out.append("\nFirmware version:\t");
                out.append(k.firmware_version.as_str());
                out.append("\nCurrent layer:\t\t");
                push_signed(&mut out, k.current_layer as i64);
            },
            None => {
                out.append("No keyboard connected");
            },
        }
        out.append("\n");
        assert(out@ =~= status_text(*self));
        out
    }
}

/// The request that connects the keyboard with the given id.
pub fn connect_request(index: usize) -> (r: Request)
    ensures
        r == (Request::ConnectKeyboard { id: index as i32 }),
{
    Request::ConnectKeyboard {
        id: #[verifier::truncate]
        (index as i32),
    }
}

/// The request that selects a layer of the connected keyboard.
pub fn set_layer_request(index: usize) -> (r: Request)
    ensures
        r == (Request::SetLayer { layer: index as i32 }),
{
    Request::SetLayer {
        layer: #[verifier::truncate]
        (index as i32),
    }
}

/// The request that sets the color of one RGB LED, for `sustain` time units
/// (0: until changed).
pub fn set_rgb_led_request(index: usize, r: u8, g: u8, b: u8, sustain: i32) -> (req: Request)
    ensures
        req == (Request::SetRgbLed {
            led: index as i32,
            red: r as i32,
            green: g as i32,
            blue: b as i32,
            sustain,
        }),
{
    Request::SetRgbLed {
        led: #[verifier::truncate]
        (index as i32),
        red: r as i32,
        green: g as i32,
        blue: b as i32,
        sustain,
    }
}

/// The request that sets the color of every RGB LED.
pub fn set_rgb_all_request(r: u8, g: u8, b: u8, sustain: i32) -> (req: Request)
    ensures
        req == (Request::SetRgbAll { red: r as i32, green: g as i32, blue: b as i32, sustain }),
{
    Request::SetRgbAll { red: r as i32, green: g as i32, blue: b as i32, sustain }
}

/// The request that gives the RGB LEDs back to the keyboard: black for one time unit,
/// after which the daemon restores what was shown before.
pub fn restore_rgb_leds_request() -> (req: Request)
    ensures
        req == (Request::SetRgbAll { red: 0, green: 0, blue: 0, sustain: 1 }),
{
    set_rgb_all_request(0, 0, 0, 1)
}

/// The request that turns a status LED on or off.
pub fn set_status_led_request(led: usize, on: bool, sustain: i32) -> (req: Request)
    ensures
        req == (Request::SetStatusLed { led: led as i32, on, sustain }),
{
    Request::SetStatusLed {
        led: #[verifier::truncate]
        (led as i32),
        on,
        sustain,
    }
}

/// The request that gives the status LEDs back to the keyboard: off for one time
/// unit, after which the daemon restores their state.
pub fn restore_status_leds_request() -> (req: Request)
    ensures
        req == (Request::SetStatusLed { led: 0, on: false, sustain: 1 }),
{
    set_status_led_request(0, false, 1)
}

} // verus!
