//! The window in which the user chooses a host and connects to it. Sessions run in
//! processes of their own, so that closing this window ends none.
use crate::error::Error;
use crate::host_ui::{line, put, views, Line, LineView};
use crate::profiles::Profile;
use crate::text;
use vstd::prelude::*;
use vstd::utf8::encode_utf8;

verus! {

/// The most bytes in a field.
pub const MAX_FIELD: usize = 2048;

pub const WELCOME: &'static str = "Import a pairing file received securely from your Linux host.";

pub const IMPORTED: &'static str = "Pairing imported and trusted. Ready to connect.";

pub const SELECTED: &'static str = "Saved host selected. Connect uses its trusted pairing.";

pub const CONNECTING: &'static str = "Connecting… session opens in a separate native window.";

pub const UNTRUSTED: &'static str = "Import and trust a pairing file for this address first.";

pub const DISCONNECTED: &'static str = "Disconnected. Connect to start again.";

pub const ENDED: &'static str = "Session ended. Connect to start again.";

/// Where fonts are looked for, after the one that the user has named.
pub open spec fn font_places() -> Seq<Seq<char>> {
    seq![
        "/System/Library/Fonts/Supplemental/Arial.ttf"@,
        "/usr/share/fonts/truetype/dejavu/DejaVuSans.ttf"@,
        "/usr/share/fonts/TTF/DejaVuSans.ttf"@,
    ]
}

pub fn font_candidates(named: Option<String>) -> (r: Vec<String>)
    ensures
        match named {
            Some(path) => {
                &&& r@.len() == 4
                &&& r@[0] == path
                &&& forall|i: int| 0 <= i < 3 ==> (#[trigger] font_places()[i]) == r@[i + 1]@
            },
            None => {
                &&& r@.len() == 3
                &&& forall|i: int| 0 <= i < 3 ==> (#[trigger] font_places()[i]) == r@[i]@
            },
        },
{
    let mut out: Vec<String> = Vec::new();
    if let Some(path) = named {
        out.push(path);
    }
    out.push("/System/Library/Fonts/Supplemental/Arial.ttf".to_string());
    out.push("/usr/share/fonts/truetype/dejavu/DejaVuSans.ttf".to_string());
    out.push("/usr/share/fonts/TTF/DejaVuSans.ttf".to_string());
    out
}

/// The first of the candidates that was found.
pub fn font_path(found: &[bool]) -> (r: Result<usize, Error>)
    ensures
        r matches Ok(i) ==> i < found@.len() && found@[i as int] && forall|j: int|
            0 <= j < i ==> !(#[trigger] found@[j]),
        r is Err <==> forall|j: int| 0 <= j < found@.len() ==> !(#[trigger] found@[j]),
        r matches Err(e) ==> e == Error::NoFont,
{
    let mut i: usize = 0;
    while i < found.len()
        invariant
            i <= found@.len(),
            forall|j: int| 0 <= j < i ==> !(#[trigger] found@[j]),
        decreases found@.len() - i,
    {
        if found[i] {
            return Ok(i);
        }
        i += 1;
    }
    Err(Error::NoFont)
}

pub struct Launcher {
    pub profiles: Vec<Profile>,
    pub selected: Option<Profile>,
    pub index: usize,
    pub address: String,
    pub pairing_path: String,
    /// The second field has the focus, the path of a pairing file.
    pub path_focused: bool,
    pub status: String,
    pub running: bool,
    pub clipboard: bool,
    pub mute: bool,
}

pub enum UiEvent {
    Quit,
    Text(String),
    /// A file was dropped on the window.
    Drop(String),
    Tab,
    Backspace,
    Paste(String),
    Click { x: i32, y: i32 },
    Other,
}

/// What the program is to do.
#[derive(Clone, Copy, PartialEq, Eq, Structural, Debug)]
pub enum Step {
    Nothing,
    Quit,
    /// Import the file for the address, both without the white space around them.
    Import,
    /// Check the pairing file of the selected profile, and connect with it.
    Connect,
    /// End the session.
    Disconnect,
}

/// What a point belongs to.
#[derive(Clone, Copy, PartialEq, Eq, Structural, Debug)]
pub enum Target {
    Address,
    Path,
    Import,
    Next,
    Clipboard,
    Mute,
    Connect,
    Disconnect,
    Nothing,
}

pub open spec fn target_at(x: i32, y: i32) -> Target {
    if 90 <= y < 132 {
        Target::Address
    } else if 170 <= y < 212 {
        Target::Path
    } else if 230 <= y < 275 {
        if x < 400 {
            Target::Import
        } else {
            Target::Next
        }
    } else if 300 <= y < 340 {
        if x < 400 {
            Target::Clipboard
        } else {
            Target::Mute
        }
    } else if 365 <= y < 412 {
        if x < 400 {
            Target::Connect
        } else {
            Target::Disconnect
        }
    } else {
        Target::Nothing
    }
}

fn find_target(x: i32, y: i32) -> (r: Target)
    ensures
        r == target_at(x, y),
{
    if 90 <= y && y < 132 {
        Target::Address
    } else if 170 <= y && y < 212 {
        Target::Path
    } else if 230 <= y && y < 275 {
        if x < 400 {
            Target::Import
        } else {
            Target::Next
        }
    } else if 300 <= y && y < 340 {
        if x < 400 {
            Target::Clipboard
        } else {
            Target::Mute
        }
    } else if 365 <= y && y < 412 {
        if x < 400 {
            Target::Connect
        } else {
            Target::Disconnect
        }
    } else {
        Target::Nothing
    }
}

/// What the user is told about a line that a session printed. Only these fixed
/// texts reach the window.
pub open spec fn progress_text(printed: Seq<char>) -> Option<Seq<char>> {
    if text::has_part(printed, "desktop connected"@) {
        Some("Connected — native desktop session is ready."@)
    } else if text::has_part(printed, "connecting with pinned TLS"@) {
        Some("Connecting with the host's trusted certificate…"@)
    } else if text::has_part(printed, "reconnect"@) || text::has_part(
        printed,
        "connection failed"@,
    ) {
        Some("Connection interrupted; retrying. Check host/network or disconnect."@)
    } else {
        None
    }
}

pub fn progress(printed: &str) -> (r: Option<&'static str>)
    ensures
        match r {
            Some(told) => progress_text(printed@) == Some(told@),
            None => progress_text(printed@) is None,
        },
{
    if text::contains_text(printed, "desktop connected") {
        Some("Connected — native desktop session is ready.")
    } else if text::contains_text(printed, "connecting with pinned TLS") {
        Some("Connecting with the host's trusted certificate…")
    } else if text::contains_text(printed, "reconnect") || text::contains_text(
        printed,
        "connection failed",
    ) {
        Some("Connection interrupted; retrying. Check host/network or disconnect.")
    } else {
        None
    }
}

/// The arguments of a session's process.
pub open spec fn session_arguments(profile: Profile, clipboard: bool, mute: bool) -> Seq<Seq<char>> {
    seq![
        "client"@,
        profile.address@,
        "--pairing-file"@,
        profile.pairing_file@,
        "--reconnect"@,
    ] + (if clipboard {
        seq!["--clipboard"@]
    } else {
        Seq::empty()
    }) + (if mute {
        seq!["--mute"@]
    } else {
        Seq::empty()
    })
}

pub open spec fn texts(list: Seq<String>) -> Seq<Seq<char>> {
    list.map_values(|s: String| s@)
}

pub fn arguments(profile: &Profile, clipboard: bool, mute: bool) -> (r: Vec<String>)
    ensures
        texts(r@) == session_arguments(*profile, clipboard, mute),
{
    let mut out: Vec<String> = Vec::new();
    out.push("client".to_string());
    out.push(profile.address.clone());
    out.push("--pairing-file".to_string());
    out.push(profile.pairing_file.clone());
    out.push("--reconnect".to_string());
    if clipboard {
        out.push("--clipboard".to_string());
    }
    if mute {
        out.push("--mute".to_string());
    }
    assert(texts(out@) =~= session_arguments(*profile, clipboard, mute));
    out
}

/// Two texts, one after the other.
fn joined(a: &str, b: &str) -> (r: String)
    ensures
        r@ == a@ + b@,
{
    let mut out = String::new();
    out.push_str(a);
    out.push_str(b);
    assert(out@ =~= a@ + b@);
    out
}

impl Launcher {
    pub open spec fn wf(&self) -> bool {
        self.profiles@.len() > 0 ==> self.index < self.profiles@.len()
    }

    /// The selected profile is the one for the address in the field.
    pub open spec fn trusted(&self) -> bool {
        self.selected matches Some(profile) && profile.address@ == text::trimmed(self.address@)
    }

    /// The text in the field that has the focus.
    pub open spec fn field(&self) -> Seq<char> {
        if self.path_focused {
            self.pairing_path@
        } else {
            self.address@
        }
    }

    /// Only the field that has the focus has changed, to this.
    pub open spec fn edited(self, value: Seq<char>, after: Launcher) -> bool {
        if self.path_focused {
            after == (Launcher { pairing_path: after.pairing_path, ..self })
                && after.pairing_path@ == value
        } else {
            after == (Launcher { address: after.address, ..self }) && after.address@ == value
        }
    }

    /// Only the status has changed, to this.
    pub open spec fn told(self, status: Seq<char>, after: Launcher) -> bool {
        after == (Launcher { status: after.status, ..self }) && after.status@ == status
    }

    /// The window opens on the profile that was saved last.
    pub fn new(profiles: Vec<Profile>) -> (r: Self)
        ensures
            r.wf(),
            r.profiles == profiles,
            r.selected == if profiles@.len() == 0 {
                None
            } else {
                Some(profiles@.last())
            },
            r.address@ == if profiles@.len() == 0 {
                Seq::empty()
            } else {
                profiles@.last().address@
            },
            r.index == if profiles@.len() == 0 {
                0
            } else {
                profiles@.len() - 1
            },
            r.pairing_path@.len() == 0,
            !r.path_focused,
            r.status@ == WELCOME@,
            !r.running && !r.clipboard && !r.mute,
    {
        let mut selected: Option<Profile> = None;
        let mut address = String::new();
        let mut index: usize = 0;
        if profiles.len() > 0 {
            index = profiles.len() - 1;
            selected = Some(profiles[index].clone());
            address = profiles[index].address.clone();
        }
        let pairing_path = String::new();
        assert(profiles@.len() == 0 ==> address@ =~= Seq::<char>::empty());
        Launcher {
            profiles,
            selected,
            index,
            address,
            pairing_path,
            path_focused: false,
            status: WELCOME.to_string(),
            running: false,
            clipboard: false,
            mute: false,
        }
    }

    /// The session has said something that the user should know.
    pub fn report(&mut self, message: &str)
        requires
            old(self).wf(),
        ensures
            final(self).wf(),
            old(self).told(message@, *final(self)),
    {
        self.status = message.to_string();
    }

    /// The window after the session's process has ended.
    pub open spec fn left(self, success: bool, exit: Seq<char>, after: Launcher) -> bool {
        &&& after == (Launcher {
            running: false,
            status: after.status,
            ..self
        })
        &&& after.status@ == if success {
            ENDED@
        } else {
            "Connection exited ("@ + exit
                + "). Check host, pairing and UDP 4443; see terminal for details."@
        }
    }

    /// The session's process has ended. `exit` says how, where it failed.
    pub fn exited(&mut self, success: bool, exit: &str)
        requires
            old(self).wf(),
        ensures
            final(self).wf(),
            old(self).left(success, exit@, *final(self)),
    {
        self.running = false;
        if success {
            self.status = ENDED.to_string();
        } else {
            let head = joined("Connection exited (", exit);
            self.status = joined(
                head.as_str(),
                "). Check host, pairing and UDP 4443; see terminal for details.",
            );
        }
    }

    /// What a click does, and what the program is to do then.
    pub open spec fn clicked(self, target: Target, after: Launcher, step: Step) -> bool {
        match target {
            Target::Address => after == (Launcher { path_focused: false, ..self }) && step
                == Step::Nothing,
            Target::Path => after == (Launcher { path_focused: true, ..self }) && step
                == Step::Nothing,
            Target::Import => after == self && step == Step::Import,
            Target::Next => {
                &&& step == Step::Nothing
                &&& if self.profiles@.len() == 0 {
                    after == self
                } else {
                    let next = (self.index + 1) % self.profiles@.len() as int;
                    &&& after.index == next
                    &&& after.selected == Some(self.profiles@[next])
                    &&& after.address == self.profiles@[next].address
                    &&& after.status@ == SELECTED@
                    &&& after == (Launcher {
                        index: after.index,
                        selected: after.selected,
                        address: after.address,
                        status: after.status,
                        ..self
                    })
                }
            },
            Target::Clipboard => after == (Launcher { clipboard: !self.clipboard, ..self }) && step
                == Step::Nothing,
            Target::Mute => after == (Launcher { mute: !self.mute, ..self }) && step
                == Step::Nothing,
            Target::Connect => if self.running {
                after == self && step == Step::Nothing
            } else if self.trusted() {
                after == self && step == Step::Connect
            } else {
                self.told(UNTRUSTED@, after) && step == Step::Nothing
            },
            Target::Disconnect => {
                &&& step == Step::Disconnect
                &&& after == (Launcher { running: false, status: after.status, ..self })
                &&& after.status@ == DISCONNECTED@
            },
            Target::Nothing => after == self && step == Step::Nothing,
        }
    }

    /// What an event does, and what the program is to do then.
    pub open spec fn stepped(self, event: UiEvent, after: Launcher, step: Step) -> bool {
        match event {
            UiEvent::Quit => step == Step::Quit && after == self,
            UiEvent::Text(text) => {
                &&& step == Step::Nothing
                &&& if encode_utf8(self.field()).len() + encode_utf8(text@).len()
                    <= MAX_FIELD {
                    self.edited(self.field() + text@, after)
                } else {
                    after == self
                }
            },
            UiEvent::Drop(path) => step == Step::Nothing && after == (Launcher {
                pairing_path: path,
                path_focused: true,
                ..self
            }),
            UiEvent::Tab => step == Step::Nothing && after == (Launcher {
                path_focused: !self.path_focused,
                ..self
            }),
            UiEvent::Backspace => step == Step::Nothing && self.edited(
                if self.field().len() == 0 {
                    self.field()
                } else {
                    self.field().drop_last()
                },
                after,
            ),
            UiEvent::Paste(text) => {
                &&& step == Step::Nothing
                &&& if encode_utf8(text@).len() <= MAX_FIELD {
                    self.edited(text::trimmed(text@), after)
                } else {
                    after == self
                }
            },
            UiEvent::Click { x, y } => self.clicked(target_at(x, y), after, step),
            UiEvent::Other => step == Step::Nothing && after == self,
        }
    }

    /// Something happens at the window.
    pub fn event(&mut self, event: UiEvent) -> (r: Step)
        requires
            old(self).wf(),
        ensures
            final(self).wf(),
            old(self).stepped(event, *final(self), r),
    {
        match event {
            UiEvent::Quit => return Step::Quit,
            UiEvent::Text(entered) => {
                let used: usize = if self.path_focused {
                    text::byte_len(self.pairing_path.as_str())
                } else {
                    text::byte_len(self.address.as_str())
                };
                if used <= MAX_FIELD && text::byte_len(entered.as_str()) <= MAX_FIELD - used {
                    if self.path_focused {
                        self.pairing_path.push_str(entered.as_str());
                    } else {
                        self.address.push_str(entered.as_str());
                    }
                }
            },
            UiEvent::Drop(path) => {
                self.pairing_path = path;
                self.path_focused = true;
            },
            UiEvent::Tab => {
                self.path_focused = !self.path_focused;
            },
            UiEvent::Backspace => {
                if self.path_focused {
                    self.pairing_path.pop();
                } else {
                    self.address.pop();
                }
            },
            UiEvent::Paste(pasted) => {
                if text::byte_len(pasted.as_str()) <= MAX_FIELD {
                    let kept = text::trim(pasted.as_str()).to_string();
                    if self.path_focused {
                        self.pairing_path = kept;
                    } else {
                        self.address = kept;
                    }
                }
            },
            UiEvent::Click { x, y } => {
                return self.click(x, y);
            },
            UiEvent::Other => {},
        }
        Step::Nothing
    }

    fn click(&mut self, x: i32, y: i32) -> (r: Step)
        requires
            old(self).wf(),
        ensures
            final(self).wf(),
            old(self).clicked(target_at(x, y), *final(self), r),
    {
        match find_target(x, y) {
            Target::Address => {
                self.path_focused = false;
                Step::Nothing
            },
            Target::Path => {
                self.path_focused = true;
                Step::Nothing
            },
            Target::Import => Step::Import,
            Target::Next => {
                if self.profiles.len() > 0 {
                    let next: usize = (self.index + 1) % self.profiles.len();
                    self.index = next;
                    self.selected = Some(self.profiles[next].clone());
                    self.address = self.profiles[next].address.clone();
                    self.status = SELECTED.to_string();
                }
                Step::Nothing
            },
            Target::Clipboard => {
                self.clipboard = !self.clipboard;
                Step::Nothing
            },
            Target::Mute => {
                self.mute = !self.mute;
                Step::Nothing
            },
            Target::Connect => {
                if self.running {
                    return Step::Nothing;
                }
                let trusted = match &self.selected {
                    Some(profile) => text::same(
                        profile.address.as_str(),
                        text::trim(self.address.as_str()),
                    ),
                    None => false,
                };
                if trusted {
                    Step::Connect
                } else {
                    self.status = UNTRUSTED.to_string();
                    Step::Nothing
                }
            },
            Target::Disconnect => {
                self.running = false;
                self.status = DISCONNECTED.to_string();
                Step::Disconnect
            },
            Target::Nothing => Step::Nothing,
        }
    }

    /// The window after an import.
    pub open spec fn brought(self, result: Result<Vec<Profile>, String>, after: Launcher) -> bool {
        &&& match result {
            Ok(profiles) => {
                &&& after.status@ == IMPORTED@
                &&& after.selected == Some(profiles@.last())
                &&& after.index == profiles@.len() - 1
                &&& after == (Launcher {
                    profiles,
                    selected: after.selected,
                    index: after.index,
                    status: after.status,
                    ..self
                })
            },
            Err(message) => self.told("Import failed: "@ + message@, after),
        }
    }

    /// An import has ended. Where it succeeded, these are the profiles now, and the
    /// new one is the last.
    pub fn imported(&mut self, result: Result<Vec<Profile>, String>)
        requires
            old(self).wf(),
            result matches Ok(profiles) ==> profiles@.len() > 0,
        ensures
            final(self).wf(),
            old(self).brought(result, *final(self)),
    {
        match result {
            Ok(profiles) => {
                let last: usize = profiles.len() - 1;
                self.selected = Some(profiles[last].clone());
                self.index = last;
                self.profiles = profiles;
                self.status = IMPORTED.to_string();
            },
            Err(message) => {
                self.status = joined("Import failed: ", message.as_str());
            },
        }
    }

    /// The pairing file cannot be used.
    pub fn unusable(&mut self, message: &str)
        requires
            old(self).wf(),
        ensures
            final(self).wf(),
            old(self).told("Pairing unavailable: "@ + message@, *final(self)),
    {
        self.status = joined("Pairing unavailable: ", message);
    }

    /// The window after the session's process was to start.
    pub open spec fn began(self, result: Result<(), String>, after: Launcher) -> bool {
        &&& match result {
            Ok(()) => after == (Launcher {
                running: true,
                status: after.status,
                ..self
            }) && after.status@ == CONNECTING@,
            Err(message) => self.told(
                "Could not launch client: "@ + message@,
                after,
            ),
        }
    }

    /// The session's process was started, or could not be.
    pub fn launched(&mut self, result: Result<(), String>)
        requires
            old(self).wf(),
        ensures
            final(self).wf(),
            old(self).began(result, *final(self)),
    {
        match result {
            Ok(()) => {
                self.running = true;
                self.status = CONNECTING.to_string();
            },
            Err(message) => {
                self.status = joined("Could not launch client: ", message.as_str());
            },
        }
    }

    /// All the text in the window. A line may reach to the right edge of its
    /// contents.
    pub open spec fn text(&self) -> Seq<LineView> {
        seq![
            line("Teleport • Native remote desktop"@, 20, 20, 760),
            line("Host address (hostname:port)"@, 20, 65, 760),
            line(self.address@, 30, 100, 750),
            line("Pairing file path — paste a path or drop the file here"@, 20, 145, 760),
            line(self.pairing_path@, 30, 180, 750),
            line("Import & trust pairing"@, 35, 242, 745),
            line("Next saved host"@, 425, 242, 355),
            line(
                if self.clipboard {
                    "[x] Share text clipboard"@
                } else {
                    "[ ] Share text clipboard"@
                },
                20,
                308,
                760,
            ),
            line(
                if self.mute {
                    "[x] Mute audio"@
                } else {
                    "[ ] Mute audio"@
                },
                410,
                308,
                370,
            ),
            line(
                if self.running {
                    "Session running"@
                } else {
                    "Connect / reconnect"@
                },
                35,
                378,
                745,
            ),
            line("Disconnect"@, 425, 378, 355),
            line("Only trust pairing files obtained from your host securely."@, 20, 480, 760),
            line(
                "Tab switches fields • Ctrl/Cmd+V pastes • Closing this window keeps the session open"@,
                20,
                510,
                760,
            ),
            line(self.status@, 20, 435, 760),
        ]
    }

    pub fn lines(&self) -> (r: Vec<Line>)
        ensures
            views(r@) == self.text(),
    {
        let mut out: Vec<Line> = Vec::new();
        assert(views(out@) =~= Seq::<LineView>::empty());
        put(&mut out, "Teleport • Native remote desktop".to_string(), 20, 20, 760);
        put(&mut out, "Host address (hostname:port)".to_string(), 20, 65, 760);
        put(&mut out, self.address.clone(), 30, 100, 750);
        put(
            &mut out,
            "Pairing file path — paste a path or drop the file here".to_string(),
            20,
            145,
            760,
        );
        put(&mut out, self.pairing_path.clone(), 30, 180, 750);
        put(&mut out, "Import & trust pairing".to_string(), 35, 242, 745);
        put(&mut out, "Next saved host".to_string(), 425, 242, 355);
        put(
            &mut out,
            (if self.clipboard {
                "[x] Share text clipboard"
            } else {
                "[ ] Share text clipboard"
            }).to_string(),
            20,
            308,
            760,
        );
        put(
            &mut out,
            (if self.mute {
                "[x] Mute audio"
            } else {
                "[ ] Mute audio"
            }).to_string(),
            410,
            308,
            370,
        );
        put(
            &mut out,
            (if self.running {
                "Session running"
            } else {
                "Connect / reconnect"
            }).to_string(),
            35,
            378,
            745,
        );
        put(&mut out, "Disconnect".to_string(), 425, 378, 355);
        put(
            &mut out,
            "Only trust pairing files obtained from your host securely.".to_string(),
            20,
            480,
            760,
        );
        put(
            &mut out,
            "Tab switches fields • Ctrl/Cmd+V pastes • Closing this window keeps the session open".to_string(),
            20,
            510,
            760,
        );
        put(&mut out, self.status.clone(), 20, 435, 760);
        assert(views(out@) =~= self.text());
        out
    }
}

/// A connection is only ever begun with a pairing that was saved for the address in
/// the field, and never while a session runs.
pub proof fn only_trusted_hosts_are_reached(before: Launcher, target: Target, after: Launcher)
    requires
        before.clicked(target, after, Step::Connect),
    ensures
        before.trusted(),
        !before.running,
{
}

/// The user comes to every saved host in turn.
pub proof fn next_visits_every_profile(before: Launcher, after: Launcher)
    requires
        before.wf(),
        before.profiles@.len() > 0,
        before.clicked(Target::Next, after, Step::Nothing),
    ensures
        after.index == if before.index + 1 == before.profiles@.len() {
            0
        } else {
            before.index + 1
        },
        after.selected == Some(before.profiles@[after.index as int]),
{
    let n = before.profiles@.len() as int;
    if before.index + 1 < n {
        vstd::arithmetic::div_mod::lemma_small_mod((before.index + 1) as nat, n as nat);
    } else {
        vstd::arithmetic::div_mod::lemma_mod_self_0(n);
    }
}

} // verus!
