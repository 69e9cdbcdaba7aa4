//! The window in which the user of a host sets its password, opens pairing and
//! revokes devices. The window, the service and the control socket are the
//! program's; here is what its events mean and what it shows.
use crate::geometry::{rect_of, Rect};
use crate::host_admin::{wipe, Request, Response};
use crate::text;
use vstd::prelude::*;
use vstd::utf8::encode_utf8;

verus! {

/// The fields: user name, password, and the password again.
pub const USERNAME: usize = 0;

pub const PASSWORD: usize = 1;

pub const CONFIRMATION: usize = 2;

pub const FIELDS: usize = 3;

/// The buttons.
pub const START: usize = 0;

pub const STOP: usize = 1;

pub const SAVE: usize = 2;

pub const DISABLE: usize = 3;

pub const OPEN: usize = 4;

pub const CLOSE: usize = 5;

pub const REVOKE: usize = 6;

pub const REVOKE_ALL: usize = 7;

pub const BUTTONS: usize = 8;

/// How many devices are shown at a time.
pub const ROWS: usize = 6;

/// The most bytes in a field.
pub const MAX_FIELD: usize = 256;

/// How long a confirmation is awaited, how often the state is asked for, and how
/// long a code is shown, in nanoseconds.
pub const CONFIRM_LIMIT: u128 = 10_000_000_000;

pub const REFRESH: u128 = 5_000_000_000;

pub const CODE_SHOWN: u128 = 300_000_000_000;

pub const EXPIRED: &'static str = "Confirmation expired; no change made.";

pub const UPDATED: &'static str =
    "Host settings updated. Existing trusted devices stay connected unless revoked.";

pub const CLICK_AGAIN: &'static str =
    "Click that button again to confirm. Revocation disconnects affected devices.";

pub const MISMATCH: &'static str = "Passwords do not match.";

pub const UNAVAILABLE: &'static str =
    "Host control unavailable. Start the updated persistent host service.";

/// What the program is to do.
#[derive(Debug, PartialEq, Eq)]
pub enum Action {
    Admin(Request),
    /// Start the service, or stop it.
    Service(bool),
}

pub struct HostUi {
    pub values: Vec<String>,
    pub focused: usize,
    pub status: Option<Response>,
    pub message: String,
    pub service_state: String,
    /// The code that is open, and since when.
    pub pairing_code: Option<(String, u128)>,
    /// The device that is selected.
    pub selected: Option<String>,
    /// The button that waits to be clicked again, and since when.
    pub confirm: Option<(usize, u128)>,
    /// The first device that is shown.
    pub offset: usize,
    /// An answer is awaited.
    pub pending: bool,
    /// When the state was last asked for.
    pub refreshed: Option<u128>,
    pub action: Option<Action>,
}

pub enum UiEvent {
    Quit,
    Text(String),
    Wheel(i32),
    PageDown,
    PageUp,
    Backspace,
    Tab,
    Paste(String),
    /// The left button goes down.
    Click { x: i32, y: i32 },
    Other,
}

/// What a point belongs to.
#[derive(Clone, Copy, PartialEq, Eq, Structural, Debug)]
pub enum Target {
    Field(usize),
    Row(usize),
    Button(usize),
    Nothing,
}

/// A line of text, where it stands and how wide it may be.
pub struct Line {
    pub text: String,
    pub x: i32,
    pub y: i32,
    pub width: u32,
}

#[verifier::ext_equal]
pub struct LineView {
    pub text: Seq<char>,
    pub x: i32,
    pub y: i32,
    pub width: u32,
}

impl View for Line {
    type V = LineView;

    open spec fn view(&self) -> LineView {
        LineView { text: self.text@, x: self.x, y: self.y, width: self.width }
    }
}

pub open spec fn line(text: Seq<char>, x: i32, y: i32, width: u32) -> LineView {
    LineView { text, x, y, width }
}

// --------------------------------------------------------------------- places

pub open spec fn field_rect(index: int) -> Rect {
    if index == 0 {
        rect_of(28, 274, 260, 42)
    } else if index == 1 {
        rect_of(302, 274, 278, 42)
    } else {
        rect_of(594, 274, 298, 42)
    }
}

pub fn field_place(index: usize) -> (r: Rect)
    requires
        index < FIELDS,
    ensures
        r == field_rect(index as int),
        r.wf(),
{
    if index == 0 {
        Rect::new(28, 274, 260, 42)
    } else if index == 1 {
        Rect::new(302, 274, 278, 42)
    } else {
        Rect::new(594, 274, 298, 42)
    }
}

pub open spec fn button_rect(index: int) -> Rect {
    if index == 0 {
        rect_of(28, 118, 164, 38)
    } else if index == 1 {
        rect_of(204, 118, 164, 38)
    } else if index == 2 {
        rect_of(28, 330, 206, 40)
    } else if index == 3 {
        rect_of(246, 330, 206, 40)
    } else if index == 4 {
        rect_of(28, 422, 206, 40)
    } else if index == 5 {
        rect_of(246, 422, 206, 40)
    } else if index == 6 {
        rect_of(28, 690, 206, 40)
    } else {
        rect_of(246, 690, 206, 40)
    }
}

pub fn button_place(index: usize) -> (r: Rect)
    requires
        index < BUTTONS,
    ensures
        r == button_rect(index as int),
        r.wf(),
{
    if index == 0 {
        Rect::new(28, 118, 164, 38)
    } else if index == 1 {
        Rect::new(204, 118, 164, 38)
    } else if index == 2 {
        Rect::new(28, 330, 206, 40)
    } else if index == 3 {
        Rect::new(246, 330, 206, 40)
    } else if index == 4 {
        Rect::new(28, 422, 206, 40)
    } else if index == 5 {
        Rect::new(246, 422, 206, 40)
    } else if index == 6 {
        Rect::new(28, 690, 206, 40)
    } else {
        Rect::new(246, 690, 206, 40)
    }
}

pub open spec fn button_text(index: int) -> Seq<char> {
    if index == 0 {
        "Start service"@
    } else if index == 1 {
        "Stop service"@
    } else if index == 2 {
        "Save password"@
    } else if index == 3 {
        "Disable login"@
    } else if index == 4 {
        "Open pairing"@
    } else if index == 5 {
        "Close pairing"@
    } else if index == 6 {
        "Revoke selected"@
    } else {
        "Revoke all managed"@
    }
}

pub fn button_label(index: usize) -> (r: &'static str)
    requires
        index < BUTTONS,
    ensures
        r@ == button_text(index as int),
{
    if index == 0 {
        "Start service"
    } else if index == 1 {
        "Stop service"
    } else if index == 2 {
        "Save password"
    } else if index == 3 {
        "Disable login"
    } else if index == 4 {
        "Open pairing"
    } else if index == 5 {
        "Close pairing"
    } else if index == 6 {
        "Revoke selected"
    } else {
        "Revoke all managed"
    }
}

pub open spec fn row_rect(index: int) -> Rect {
    rect_of(28, 510 + index * 28, 864, 26)
}

fn row_place(index: usize) -> (r: Rect)
    requires
        index < ROWS,
    ensures
        r == row_rect(index as int),
        r.wf(),
{
    Rect::new(28, 510 + index as i32 * 28, 864, 26)
}

/// The first of the fields, the rows and the buttons that the point lies on, where
/// `rows` devices are shown.
pub open spec fn is_target(x: int, y: int, rows: int, target: Target) -> bool {
    match target {
        Target::Field(i) => i < FIELDS && field_rect(i as int).holds(x, y),
        Target::Row(i) => i < rows && i < ROWS && row_rect(i as int).holds(x, y),
        Target::Button(i) => i < BUTTONS && button_rect(i as int).holds(x, y),
        Target::Nothing => {
            &&& forall|i: int| 0 <= i < FIELDS ==> !(#[trigger] field_rect(i)).holds(x, y)
            &&& forall|i: int|
                0 <= i < ROWS && i < rows ==> !(#[trigger] row_rect(i)).holds(x, y)
            &&& forall|i: int| 0 <= i < BUTTONS ==> !(#[trigger] button_rect(i)).holds(x, y)
        },
    }
}

/// A point lies on one of them at most.
pub proof fn targets_do_not_overlap(x: int, y: int, rows: int, a: Target, b: Target)
    requires
        is_target(x, y, rows, a),
        is_target(x, y, rows, b),
    ensures
        a == b,
{
}

fn find_target(x: i32, y: i32, rows: usize) -> (r: Target)
    ensures
        is_target(x as int, y as int, rows as int, r),
{
    let mut i: usize = 0;
    while i < FIELDS
        invariant
            i <= FIELDS,
            forall|j: int| 0 <= j < i ==> !(#[trigger] field_rect(j)).holds(x as int, y as int),
        decreases FIELDS - i,
    {
        if field_place(i).contains_point(x, y) {
            return Target::Field(i);
        }
        i += 1;
    }
    i = 0;
    while i < ROWS && i < rows
        invariant
            i <= ROWS,
            forall|j: int| 0 <= j < FIELDS ==> !(#[trigger] field_rect(j)).holds(x as int, y as int),
            forall|j: int| 0 <= j < i ==> !(#[trigger] row_rect(j)).holds(x as int, y as int),
        decreases ROWS - i,
    {
        if row_place(i).contains_point(x, y) {
            return Target::Row(i);
        }
        i += 1;
    }
    let ghost shown = i;
    i = 0;
    while i < BUTTONS
        invariant
            i <= BUTTONS,
            shown >= ROWS || shown >= rows,
            forall|j: int| 0 <= j < FIELDS ==> !(#[trigger] field_rect(j)).holds(x as int, y as int),
            forall|j: int| 0 <= j < shown ==> !(#[trigger] row_rect(j)).holds(x as int, y as int),
            forall|j: int| 0 <= j < i ==> !(#[trigger] button_rect(j)).holds(x as int, y as int),
        decreases BUTTONS - i,
    {
        if button_place(i).contains_point(x, y) {
            return Target::Button(i);
        }
        i += 1;
    }
    Target::Nothing
}

// ---------------------------------------------------------------------- state

pub open spec fn max_offset(devices: int) -> int {
    if devices > ROWS {
        devices - ROWS
    } else {
        0
    }
}

pub open spec fn at_most(a: int, b: int) -> int {
    if a < b {
        a
    } else {
        b
    }
}

impl HostUi {
    pub open spec fn wf(&self) -> bool {
        &&& self.values@.len() == FIELDS
        &&& self.focused < FIELDS
        &&& self.confirm matches Some((button, _)) ==> button < BUTTONS
        &&& forall|i: int|
            0 <= i < FIELDS ==> encode_utf8((#[trigger] self.values@[i])@).len() <= MAX_FIELD
    }

    pub open spec fn device_count(&self) -> int {
        match self.status {
            Some(status) => status.devices@.len() as int,
            None => 0,
        }
    }

    /// How many devices follow the first that is shown, it included.
    pub open spec fn rows_left(&self) -> int {
        if self.device_count() > self.offset {
            self.device_count() - self.offset
        } else {
            0
        }
    }

    fn devices(&self) -> (r: usize)
        ensures
            r == self.device_count(),
    {
        match &self.status {
            Some(status) => status.devices.len(),
            None => 0,
        }
    }

    fn last_offset(&self) -> (r: usize)
        ensures
            r == max_offset(self.device_count()),
    {
        self.devices().saturating_sub(ROWS)
    }

    pub fn new() -> (r: Self)
        ensures
            r.wf(),
            r.values@[0]@.len() == 0 && r.values@[1]@.len() == 0 && r.values@[2]@.len() == 0,
            r.focused == 0,
            r.status is None,
            r.message@ == "Checking the local host service…"@,
            r.service_state@ == "unknown"@,
            r.pairing_code is None,
            r.selected is None,
            r.confirm is None,
            r.offset == 0,
            !r.pending,
            r.refreshed is None,
            r.action is None,
    {
        let mut values: Vec<String> = Vec::new();
        values.push(String::new());
        values.push(String::new());
        values.push(String::new());
        proof {
            vstd::utf8::encode_utf8_decode_utf8(Seq::<char>::empty());
            assert(encode_utf8(Seq::<char>::empty()).len() == 0);
            assert(values@[0]@ =~= Seq::<char>::empty());
            assert(values@[1]@ =~= Seq::<char>::empty());
            assert(values@[2]@ =~= Seq::<char>::empty());
        }
        HostUi {
            values,
            focused: 0,
            status: None,
            message: "Checking the local host service…".to_string(),
            service_state: "unknown".to_string(),
            pairing_code: None,
            selected: None,
            confirm: None,
            offset: 0,
            pending: false,
            refreshed: None,
            action: None,
        }
    }

    /// The confirmation was awaited for too long.
    pub open spec fn lapsed(&self, now: u128) -> bool {
        self.confirm matches Some((_, since)) && now > since + CONFIRM_LIMIT
    }

    /// The window when a new frame has begun.
    pub open spec fn begun(self, now: u128, after: HostUi) -> bool {
        &&& after.confirm == if self.lapsed(now) {
            None
        } else {
            self.confirm
        }
        &&& after.message@ == if self.lapsed(now) {
            EXPIRED@
        } else {
            self.message@
        }
        &&& after.offset == at_most(
            self.offset as int,
            max_offset(self.device_count()),
        )
        &&& after == (HostUi {
            confirm: after.confirm,
            message: after.message,
            offset: after.offset,
            ..self
        })
    }

    /// A new frame begins.
    pub fn begin(&mut self, now: u128)
        requires
            old(self).wf(),
        ensures
            final(self).wf(),
            old(self).begun(now, *final(self)),
    {
        let lapsed = match self.confirm {
            Some((_, since)) => now > since && now - since > CONFIRM_LIMIT,
            None => false,
        };
        if lapsed {
            self.confirm = None;
            self.message = EXPIRED.to_string();
        }
        let last: usize = self.last_offset();
        if self.offset > last {
            self.offset = last;
        }
    }

    /// The window when the answer has come.
    pub open spec fn answered(
        self,
        answer: Result<Response, String>,
        service: String,
        now: u128,
        after: HostUi,
    ) -> bool {
        &&& !after.pending
        &&& after.service_state == service
        &&& match answer {
            Ok(response) => {
                &&& after.status == Some(Response { code: None, ..response })
                &&& after.message@ == UPDATED@
                &&& after.pairing_code == if !response.pairing_open {
                    None
                } else {
                    match response.code {
                        Some(code) => Some((code, now)),
                        None => self.pairing_code,
                    }
                }
            },
            Err(error) => {
                &&& after.status is None
                &&& after.message == error
                &&& after.pairing_code == self.pairing_code
            },
        }
        &&& after == (HostUi {
            pending: after.pending,
            service_state: after.service_state,
            status: after.status,
            message: after.message,
            pairing_code: after.pairing_code,
            ..self
        })
    }

    /// The answer has come, with the state of the service.
    pub fn received(&mut self, answer: Result<Response, String>, service: String, now: u128)
        requires
            old(self).wf(),
        ensures
            final(self).wf(),
            old(self).answered(answer, service, now, *final(self)),
    {
        self.pending = false;
        self.service_state = service;
        match answer {
            Ok(response) => {
                let mut response = response;
                let code = response.code.take();
                if let Some(code) = code {
                    self.pairing_code = Some((code, now));
                }
                if !response.pairing_open {
                    self.pairing_code = None;
                }
                self.message = UPDATED.to_string();
                self.status = Some(response);
            },
            Err(error) => {
                self.message = error;
                self.status = None;
            },
        }
    }

    /// A text that may be entered.
    pub open spec fn enterable(text: Seq<char>) -> bool {
        encode_utf8(text).len() <= MAX_FIELD && !text::any_control(text)
    }

    /// Only the field that has the focus has changed, to this.
    pub open spec fn edited(self, value: Seq<char>, after: HostUi) -> bool {
        &&& after.values@.len() == FIELDS
        &&& forall|i: int|
            0 <= i < FIELDS && i != self.focused ==> #[trigger] after.values@[i] == self.values@[i]
        &&& after.values@[self.focused as int]@ == value
    }

    /// A button that changes what others can do must be clicked twice.
    pub open spec fn needs_confirmation(&self, button: int) -> bool {
        button == STOP || button == DISABLE || button == REVOKE || button == REVOKE_ALL || button
            == SAVE && (self.status matches Some(status) && status.username is Some)
    }

    /// A click on this button is carried out.
    pub open spec fn carries_out(&self, button: int) -> bool {
        !self.needs_confirmation(button) || (self.confirm matches Some((waiting, _)) && waiting
            == button)
    }

    /// What a button does, once it is carried out.
    pub open spec fn does(self, button: int, after: HostUi) -> bool {
        if button == SAVE {
            if self.values@[1]@ != self.values@[2]@ {
                &&& after.message@ == MISMATCH@
                &&& after == (HostUi {
                    confirm: None,
                    action: None,
                    message: after.message,
                    ..self
                })
            } else {
                &&& after.action == Some(
                    Action::Admin(
                        Request::SetPassword {
                            username: self.values@[0],
                            password: self.values@[1],
                        },
                    ),
                )
                &&& after.values@.len() == FIELDS
                &&& after.values@[0] == self.values@[0]
                &&& after.values@[1]@.len() == 0
                &&& after.values@[2]@.len() == 0
                &&& after == (HostUi {
                    confirm: None,
                    action: after.action,
                    values: after.values,
                    ..self
                })
            }
        } else {
            let action = if button == START {
                Some(Action::Service(true))
            } else if button == STOP {
                Some(Action::Service(false))
            } else if button == DISABLE {
                Some(Action::Admin(Request::DisablePassword))
            } else if button == OPEN {
                Some(Action::Admin(Request::OpenPairing))
            } else if button == CLOSE {
                Some(Action::Admin(Request::ClosePairing))
            } else if button == REVOKE {
                match self.selected {
                    Some(id) => Some(Action::Admin(Request::RevokeDevice { id })),
                    None => None,
                }
            } else {
                Some(Action::Admin(Request::RevokeAllDevices))
            };
            after == (HostUi {
                confirm: None,
                action,
                pairing_code: if button == CLOSE {
                    None
                } else {
                    self.pairing_code
                },
                ..self
            })
        }
    }

    /// What a click on a button does.
    pub open spec fn pressed(self, button: int, now: u128, after: HostUi) -> bool {
        if self.carries_out(button) {
            self.does(button, after)
        } else {
            &&& after.message@ == CLICK_AGAIN@
            &&& after == (HostUi {
                confirm: Some((button as usize, now)),
                message: after.message,
                ..self
            })
        }
    }

    fn press(&mut self, button: usize, now: u128)
        requires
            old(self).wf(),
            button < BUTTONS,
        ensures
            final(self).wf(),
            old(self).pressed(button as int, now, *final(self)),
    {
        let account = match &self.status {
            Some(status) => status.username.is_some(),
            None => false,
        };
        let needs = button == STOP || button == DISABLE || button == REVOKE || button == REVOKE_ALL
            || (button == SAVE && account);
        let waiting = match self.confirm {
            Some((waiting, _)) => waiting == button,
            None => false,
        };
        if needs && !waiting {
            self.confirm = Some((button, now));
            self.message = CLICK_AGAIN.to_string();
            return;
        }
        self.confirm = None;
        if button == START {
            self.action = Some(Action::Service(true));
        } else if button == STOP {
            self.action = Some(Action::Service(false));
        } else if button == SAVE {
            if !text::same(self.values[1].as_str(), self.values[2].as_str()) {
                self.message = MISMATCH.to_string();
                self.action = None;
            } else {
                let ghost before = self.values@;
                let username = self.values[0].clone();
                let password = self.values[1].clone();
                wipe(&mut self.values[1]);
                wipe(&mut self.values[2]);
                proof {
                    vstd::utf8::encode_utf8_decode_utf8(Seq::<char>::empty());
                    assert(encode_utf8(Seq::<char>::empty()).len() == 0);
                }
                self.action = Some(Action::Admin(Request::SetPassword { username, password }));
            }
        } else if button == DISABLE {
            self.action = Some(Action::Admin(Request::DisablePassword));
        } else if button == OPEN {
            self.action = Some(Action::Admin(Request::OpenPairing));
        } else if button == CLOSE {
            self.pairing_code = None;
            self.action = Some(Action::Admin(Request::ClosePairing));
        } else if button == REVOKE {
            self.action = match &self.selected {
                Some(id) => Some(Action::Admin(Request::RevokeDevice { id: id.clone() })),
                None => None,
            };
        } else {
            self.action = Some(Action::Admin(Request::RevokeAllDevices));
        }
    }

    /// What an event does. Nothing is entered or clicked while an answer is awaited.
    pub open spec fn stepped(self, event: UiEvent, now: u128, after: HostUi) -> bool {
        match event {
            UiEvent::Text(text) => if !self.pending && encode_utf8(
                self.values@[self.focused as int]@,
            ).len() + encode_utf8(text@).len() <= MAX_FIELD && !text::any_control(text@) {
                &&& self.edited(self.values@[self.focused as int]@ + text@, after)
                &&& after == (HostUi { confirm: None, values: after.values, ..self })
            } else {
                after == self
            },
            UiEvent::Wheel(y) => after == (HostUi {
                offset: (if self.offset - y < 0 {
                    0
                } else {
                    at_most(self.offset - y, max_offset(self.device_count()))
                }) as usize,
                confirm: None,
                ..self
            }),
            UiEvent::PageDown => after == (HostUi {
                offset: at_most(self.offset + ROWS, max_offset(self.device_count())) as usize,
                ..self
            }),
            UiEvent::PageUp => after == (HostUi {
                offset: (if self.offset < ROWS {
                    0
                } else {
                    self.offset - ROWS
                }) as usize,
                ..self
            }),
            UiEvent::Backspace => {
                let value = self.values@[self.focused as int]@;
                &&& self.edited(
                    if value.len() == 0 {
                        value
                    } else {
                        value.drop_last()
                    },
                    after,
                )
                &&& after == (HostUi { values: after.values, ..self })
            },
            UiEvent::Tab => after == (HostUi {
                focused: ((self.focused + 1) % 3) as usize,
                ..self
            }),
            UiEvent::Paste(text) => if Self::enterable(text@) {
                &&& self.edited(text@, after)
                &&& after == (HostUi { values: after.values, ..self })
            } else {
                after == self
            },
            UiEvent::Click { x, y } => if self.pending {
                after == self
            } else {
                exists|target: Target| #[trigger]
                    is_target(x as int, y as int, self.rows_left(), target) && match target {
                        Target::Field(i) => after == (HostUi { focused: i, confirm: None, ..self }),
                        Target::Row(i) => after == (HostUi {
                            selected: Some(self.status->0.devices@[self.offset + i].id),
                            confirm: None,
                            ..self
                        }),
                        Target::Button(i) => self.pressed(i as int, now, after),
                        Target::Nothing => after == self,
                    }
            },
            UiEvent::Quit | UiEvent::Other => after == self,
        }
    }

    /// Something happens at the window. Returns whether it closes.
    #[verifier::rlimit(20)]
    pub fn event(&mut self, event: UiEvent, now: u128) -> (r: bool)
        requires
            old(self).wf(),
        ensures
            final(self).wf(),
            r <==> event is Quit,
            old(self).stepped(event, now, *final(self)),
    {
        let focused: usize = self.focused;
        match event {
            UiEvent::Quit => return true,
            UiEvent::Text(entered) => {
                let used: usize = text::byte_len(self.values[focused].as_str());
                if !self.pending && text::byte_len(entered.as_str()) <= MAX_FIELD - used
                    && !text::has_control(entered.as_str()) {
                    proof {
                        text::encoding_of_concatenation(
                            self.values@[focused as int]@,
                            entered@,
                        );
                    }
                    self.values[focused].push_str(entered.as_str());
                    self.confirm = None;
                }
            },
            UiEvent::Wheel(y) => {
                let moved: i128 = self.offset as i128 - y as i128;
                let last: usize = self.last_offset();
                self.offset = if moved < 0 {
                    0
                } else if moved < last as i128 {
                    moved as usize
                } else {
                    last
                };
                self.confirm = None;
            },
            UiEvent::PageDown => {
                let last: usize = self.last_offset();
                let moved: usize = self.offset.saturating_add(ROWS);
                self.offset = if moved < last {
                    moved
                } else {
                    last
                };
            },
            UiEvent::PageUp => {
                self.offset = self.offset.saturating_sub(ROWS);
            },
            UiEvent::Backspace => {
                let ghost value = self.values@[focused as int]@;
                self.values[focused].pop();
                proof {
                    if value.len() > 0 {
                        text::encoding_of_concatenation(value.drop_last(), seq![value.last()]);
                        assert(value.drop_last() + seq![value.last()] =~= value);
                    }
                }
            },
            UiEvent::Tab => {
                self.focused = (focused + 1) % 3;
            },
            UiEvent::Paste(pasted) => {
                if text::byte_len(pasted.as_str()) <= MAX_FIELD && !text::has_control(
                    pasted.as_str(),
                ) {
                    self.values[focused] = pasted;
                }
            },
            UiEvent::Click { x, y } => {
                if !self.pending {
                    let rows: usize = self.devices().saturating_sub(self.offset);
                    let target = find_target(x, y, rows);
                    assert(is_target(x as int, y as int, self.rows_left(), target));
                    match target {
                        Target::Field(i) => {
                            self.focused = i;
                            self.confirm = None;
                        },
                        Target::Row(i) => {
                            if let Some(status) = &self.status {
                                self.selected = Some(status.devices[self.offset + i].id.clone());
                            }
                            self.confirm = None;
                        },
                        Target::Button(i) => self.press(i, now),
                        Target::Nothing => {},
                    }
                }
            },
            UiEvent::Other => {},
        }
        false
    }

    /// The state of the host should be asked for.
    pub open spec fn due(&self, now: u128) -> bool {
        self.confirm is None && (self.refreshed matches Some(last) ==> now >= last + REFRESH)
    }

    /// What the program is to do at this time, and the window then.
    pub open spec fn acted(self, now: u128, after: HostUi, r: Option<Action>) -> bool {
        &&& r is Some <==> !self.pending && (self.action is Some || self.due(now))
        &&& r matches Some(action) ==> {
            &&& self.action is Some ==> Some(action) == self.action
            &&& self.action is None ==> action == Action::Admin(Request::Status)
            &&& after == (HostUi {
                action: None,
                pending: true,
                refreshed: Some(now),
                ..self
            })
        }
        &&& r is None ==> after == (HostUi { action: None, ..self })
    }

    /// What the program is to do now, if anything; it is busy then until the answer
    /// comes.
    pub fn next(&mut self, now: u128) -> (r: Option<Action>)
        requires
            old(self).wf(),
        ensures
            final(self).wf(),
            old(self).acted(now, *final(self), r),
    {
        let action = self.action.take();
        if self.pending {
            return None;
        }
        let late = match self.refreshed {
            Some(last) => now >= last && now - last >= REFRESH,
            None => true,
        };
        if action.is_some() || (self.confirm.is_none() && late) {
            self.pending = true;
            self.refreshed = Some(now);
            match action {
                Some(action) => Some(action),
                None => Some(Action::Admin(Request::Status)),
            }
        } else {
            None
        }
    }

    /// The window closes: the passwords are overwritten.
    pub fn close(&mut self)
        requires
            old(self).wf(),
        ensures
            final(self).wf(),
            final(self).values@[0] == old(self).values@[0],
            final(self).values@[1]@.len() == 0,
            final(self).values@[2]@.len() == 0,
            *final(self) == (HostUi { values: final(self).values, ..*old(self) }),
    {
        wipe(&mut self.values[1]);
        wipe(&mut self.values[2]);
        proof {
            vstd::utf8::encode_utf8_decode_utf8(Seq::<char>::empty());
            assert(encode_utf8(Seq::<char>::empty()).len() == 0);
        }
    }
}

// --------------------------------------------------------------------- output

pub open spec fn views(lines: Seq<Line>) -> Seq<LineView> {
    lines.map_values(|l: Line| l@)
}

pub(crate) fn put(out: &mut Vec<Line>, text: String, x: i32, y: i32, width: u32)
    ensures
        views(final(out)@) == views(old(out)@).push(line(text@, x, y, width)),
{
    out.push(Line { text, x, y, width });
    assert(views(out@) =~= views(old(out)@).push(line(text@, x, y, width)));
}

pub open spec fn service_text(state: Seq<char>) -> Seq<char> {
    "User service: "@ + state + "    •    Local controls only"@
}

pub open spec fn status_text(status: Option<Response>) -> Seq<char> {
    match status {
        Some(status) => "Listen: "@ + status.listen@ + "   Login: "@ + match status.username {
            Some(name) => name@,
            None => "disabled"@,
        },
        None => UNAVAILABLE@,
    }
}

pub open spec fn fingerprint_text(status: Option<Response>) -> Seq<char> {
    match status {
        Some(status) => status.fingerprint@,
        None => Seq::empty(),
    }
}

pub open spec fn devices_text(count: nat) -> Seq<char> {
    "MANAGED DEVICES ("@ + text::decimal(count)
        + ") / legacy imported credentials are preserved"@
}

impl HostUi {
    /// The code is still worth showing.
    pub open spec fn shows_code(&self, now: u128) -> bool {
        self.pairing_code matches Some((_, since)) && now < since + CODE_SHOWN
    }

    /// The line of the device at this place, with a mark where it is selected.
    pub open spec fn row_text(&self, index: int) -> Seq<char> {
        let device = self.status->0.devices@[index];
        (if self.selected matches Some(id) && id@ == device.id@ {
            "›"@
        } else {
            " "@
        }) + " "@ + device.name@ + "   "@ + device.id@
    }

    pub open spec fn shown_rows(&self) -> int {
        at_most(self.rows_left(), ROWS as int)
    }

    pub open spec fn rows(&self, count: int) -> Seq<LineView> {
        Seq::new(
            count as nat,
            |k: int| line(self.row_text(self.offset + k), 28, (512 + k * 28) as i32, 864),
        )
    }

    pub open spec fn header(&self) -> Seq<LineView> {
        seq![
            line("TELEPORT / HOST SETTINGS"@, 28, 26, 864),
            line(service_text(self.service_state@), 28, 65, 864),
            line(status_text(self.status), 28, 92, 864),
            line("HOST IDENTITY / verify this fingerprint on new clients"@, 28, 180, 864),
            line(fingerprint_text(self.status), 28, 208, 864),
            line("Username"@, 28, 248, 260),
            line("Password (12+ characters)"@, 302, 248, 278),
            line("Confirm password"@, 594, 248, 298),
            line("OPTIONAL ONE-TIME PAIRING / expires in 5 minutes"@, 28, 392, 864),
        ]
    }

    /// All the text in the window but that of fields and buttons.
    pub open spec fn text(&self, now: u128) -> Seq<LineView> {
        self.header() + (match self.pairing_code {
            Some((code, _)) if self.shows_code(now) => seq![
                line("Code: "@ + code@, 482, 434, 360),
            ],
            _ => Seq::empty(),
        }) + seq![line(devices_text(self.device_count() as nat), 28, 482, 864)] + self.rows(
            self.shown_rows(),
        ) + seq![
            line("Scroll / PgUp / PgDn"@, 684, 696, 208),
            line(self.message@, 28, 752, 864),
        ]
    }

    fn status_line(&self) -> (r: String)
        ensures
            r@ == status_text(self.status),
    {
        match &self.status {
            Some(status) => {
                let mut out = String::new();
                out.push_str("Listen: ");
                out.push_str(status.listen.as_str());
                out.push_str("   Login: ");
                match &status.username {
                    Some(name) => out.push_str(name.as_str()),
                    None => out.push_str("disabled"),
                }
                assert(out@ =~= status_text(self.status));
                out
            },
            None => UNAVAILABLE.to_string(),
        }
    }

    fn row_line(&self, status: &Response, index: usize) -> (r: String)
        requires
            self.status == Some(*status),
            index < status.devices@.len(),
        ensures
            r@ == self.row_text(index as int),
    {
        let marked = match &self.selected {
            Some(id) => text::same(id.as_str(), status.devices[index].id.as_str()),
            None => false,
        };
        let mut out = String::new();
        out.push_str(
            if marked {
                "›"
            } else {
                " "
            },
        );
        out.push_str(" ");
        out.push_str(status.devices[index].name.as_str());
        out.push_str("   ");
        out.push_str(status.devices[index].id.as_str());
        assert(out@ =~= self.row_text(index as int));
        out
    }

    pub fn lines(&self, now: u128) -> (r: Vec<Line>)
        ensures
            views(r@) == self.text(now),
    {
        let mut out: Vec<Line> = Vec::new();
        assert(views(out@) =~= Seq::<LineView>::empty());
        put(&mut out, "TELEPORT / HOST SETTINGS".to_string(), 28, 26, 864);
        let mut service = String::new();
        service.push_str("User service: ");
        service.push_str(self.service_state.as_str());
        service.push_str("    •    Local controls only");
        assert(service@ =~= service_text(self.service_state@));
        put(&mut out, service, 28, 65, 864);
        put(&mut out, self.status_line(), 28, 92, 864);
        put(
            &mut out,
            "HOST IDENTITY / verify this fingerprint on new clients".to_string(),
            28,
            180,
            864,
        );
        let fingerprint = match &self.status {
            Some(status) => status.fingerprint.clone(),
            None => String::new(),
        };
        assert(fingerprint@ =~= fingerprint_text(self.status));
        put(&mut out, fingerprint, 28, 208, 864);
        put(&mut out, "Username".to_string(), 28, 248, 260);
        put(&mut out, "Password (12+ characters)".to_string(), 302, 248, 278);
        put(&mut out, "Confirm password".to_string(), 594, 248, 298);
        put(
            &mut out,
            "OPTIONAL ONE-TIME PAIRING / expires in 5 minutes".to_string(),
            28,
            392,
            864,
        );
        assert(views(out@) =~= self.header());
        if let Some((code, since)) = &self.pairing_code {
            if now < *since || now - *since < CODE_SHOWN {
                let mut shown = String::new();
                shown.push_str("Code: ");
                shown.push_str(code.as_str());
                assert(shown@ =~= "Code: "@ + code@);
                put(&mut out, shown, 482, 434, 360);
            }
        }
        let mut managed = String::new();
        managed.push_str("MANAGED DEVICES (");
        text::push_decimal(&mut managed, self.devices() as u64);
        managed.push_str(") / legacy imported credentials are preserved");
        assert(managed@ =~= devices_text(self.device_count() as nat));
        put(&mut out, managed, 28, 482, 864);
        let ghost above = views(out@);
        assert(above =~= self.header() + (match self.pairing_code {
            Some((code, _)) if self.shows_code(now) => seq![
                line("Code: "@ + code@, 482, 434, 360),
            ],
            _ => Seq::empty(),
        }) + seq![line(devices_text(self.device_count() as nat), 28, 482, 864)]);
        assert(views(out@) =~= above + self.rows(0));
        if let Some(status) = &self.status {
            let mut k: usize = 0;
            let count: usize = status.devices.len();
            let left: usize = count.saturating_sub(self.offset);
            while k < ROWS && k < left
                invariant
                    k <= ROWS,
                    k <= left,
                    self.status == Some(*status),
                    count == self.device_count(),
                    left == self.rows_left(),
                    views(out@) == above + self.rows(k as int),
                decreases ROWS - k,
            {
                let row = self.row_line(status, self.offset + k);
                put(&mut out, row, 28, 512 + k as i32 * 28, 864);
                k += 1;
                assert(views(out@) =~= above + self.rows(k as int));
            }
        }
        assert(views(out@) == above + self.rows(self.shown_rows()));
        put(&mut out, "Scroll / PgUp / PgDn".to_string(), 684, 696, 208);
        put(&mut out, self.message.clone(), 28, 752, 864);
        assert(views(out@) =~= self.text(now));
        out
    }

    /// What a field shows: the user name, but a dot for each character of a
    /// password.
    pub open spec fn field_text(&self, index: int) -> Seq<char> {
        if index == USERNAME {
            self.values@[index]@
        } else {
            Seq::new(self.values@[index]@.len(), |i: int| '•')
        }
    }

    pub fn field_label(&self, index: usize) -> (r: String)
        requires
            self.wf(),
            index < FIELDS,
        ensures
            r@ == self.field_text(index as int),
    {
        if index == USERNAME {
            return self.values[index].clone();
        }
        let n: usize = self.values[index].as_str().unicode_len();
        let mut out = String::new();
        let mut i: usize = 0;
        while i < n
            invariant
                i <= n,
                n == self.values@[index as int]@.len(),
                out@ == Seq::new(i as nat, |k: int| '•'),
            decreases n - i,
        {
            out.push('•');
            i += 1;
            assert(out@ =~= Seq::new(i as nat, |k: int| '•'));
        }
        assert(out@ =~= self.field_text(index as int));
        out
    }
}

// ----------------------------------------------------------------------- laws

/// Nothing that cuts others off happens at the first click.
pub proof fn cutting_off_takes_two_clicks(before: HostUi, button: int, now: u128, after: HostUi)
    requires
        before.wf(),
        0 <= button < BUTTONS,
        before.pressed(button, now, after),
        before.action is None,
        before.confirm is None,
        before.needs_confirmation(button),
    ensures
        after.action is None,
        after.confirm == Some((button as usize, now)),
{
}

/// The second click on the same button carries it out.
pub proof fn the_second_click_carries_out(
    first: HostUi,
    second: HostUi,
    button: int,
    now: u128,
    later: u128,
    third: HostUi,
)
    requires
        0 <= button < BUTTONS,
        !first.carries_out(button),
        first.pressed(button, now, second),
        second.pressed(button, later, third),
    ensures
        second.does(button, third),
{
}

/// A password never shows in its field.
pub proof fn passwords_are_not_shown(ui: HostUi, index: int, i: int)
    requires
        ui.wf(),
        index == PASSWORD || index == CONFIRMATION,
        0 <= i < ui.field_text(index).len(),
    ensures
        ui.field_text(index)[i] == '•',
{
}

} // verus!
