//! The input normalizer: drains raw device events without blocking, once
//! per scheduler tick, and re-emits them as typed event streams in a fixed
//! stage order.
//!
//! Each tick runs five ordered stages.  The EmitRaw stage drains every
//! event that was already buffered when the tick began: each drained event
//! is appended to the raw-event stream and classified into exactly one
//! typed stream; an unrecognized event is recorded in the raw stream and
//! otherwise dropped silently.  A transient device read error ends the
//! tick's draining early — events already read are still delivered.  The
//! Post stage scans the key stream for the interrupt chord (the interrupt
//! modifier plus a literal 'c', press kind) and signals termination once
//! per occurrence when the feature is enabled.

use vstd::prelude::*;

use crate::errors::SessionError;

verus! {

/// Modifier bit for a held Shift key.
pub const MOD_SHIFT: u8 = 0x1;

/// Modifier bit for a held Control key: the interrupt modifier.
pub const MOD_CONTROL: u8 = 0x2;

/// Modifier bit for a held Alt key.
pub const MOD_ALT: u8 = 0x4;

/// The key that a key event reported.
#[derive(Clone, Copy, Debug, PartialEq, Eq, Structural)]
pub enum KeyCode {
    /// A printable character.
    Char(char),
    /// The Enter key.
    Enter,
    /// The Escape key.
    Esc,
    /// The Backspace key.
    Backspace,
    /// The Tab key.
    Tab,
    /// The left arrow key.
    Left,
    /// The right arrow key.
    Right,
    /// The up arrow key.
    Up,
    /// The down arrow key.
    Down,
    /// The Home key.
    Home,
    /// The End key.
    End,
    /// The Page Up key.
    PageUp,
    /// The Page Down key.
    PageDown,
    /// The Insert key.
    Insert,
    /// The Delete key.
    Delete,
    /// A numbered function key.
    F(u8),
}

/// Whether a key event reports a press, a repeat, or a release.
#[derive(Clone, Copy, Debug, PartialEq, Eq, Structural)]
pub enum KeyEventKind {
    /// The key went down.
    Press,
    /// The key is auto-repeating.
    Repeat,
    /// The key came up.
    Release,
}

/// A key event read from the device.
#[derive(Clone, Copy, Debug, PartialEq, Eq, Structural)]
pub struct KeyEvent {
    /// The key itself.
    pub code: KeyCode,
    /// The modifier bits held with it.
    pub modifiers: u8,
    /// Press, repeat or release.
    pub kind: KeyEventKind,
}

/// A mouse event read from the device.
#[derive(Clone, Copy, Debug, PartialEq, Eq, Structural)]
pub struct MouseEvent {
    /// Grid column under the pointer.
    pub column: u16,
    /// Grid row under the pointer.
    pub row: u16,
    /// The modifier bits held with it.
    pub modifiers: u8,
}

/// The terminal gained or lost focus.
#[derive(Clone, Copy, Debug, PartialEq, Eq, Structural)]
pub enum FocusEvent {
    /// The terminal gained focus.
    Gained,
    /// The terminal lost focus.
    Lost,
}

/// The device was resized; carries the new cell-grid dimensions, not a
/// delta.
#[derive(Clone, Copy, Debug, PartialEq, Eq, Structural)]
pub struct ResizeEvent {
    /// New number of grid columns.
    pub columns: u16,
    /// New number of grid rows.
    pub rows: u16,
}

/// Text was pasted into the terminal.
#[derive(Clone, Debug, PartialEq, Eq)]
pub struct PasteEvent(pub String);

impl View for PasteEvent {
    type V = Seq<char>;

    open spec fn view(&self) -> Seq<char> {
        self.0@
    }
}

/// A raw event as the device reported it, before classification.
#[derive(Clone, Debug, PartialEq, Eq)]
pub enum RawDeviceEvent {
    /// A keyboard event.
    Key(KeyEvent),
    /// A mouse event.
    Mouse(MouseEvent),
    /// The terminal gained focus.
    FocusGained,
    /// The terminal lost focus.
    FocusLost,
    /// The terminal was resized to this many columns and rows.
    Resize(u16, u16),
    /// Text was pasted.
    Paste(String),
    /// An event kind this normalizer does not recognize.
    Unrecognized,
}

/// The mathematical value of a raw event: as `RawDeviceEvent`, with pasted
/// text abstracted to its character sequence.
pub enum RawEventView {
    /// A keyboard event.
    Key(KeyEvent),
    /// A mouse event.
    Mouse(MouseEvent),
    /// The terminal gained focus.
    FocusGained,
    /// The terminal lost focus.
    FocusLost,
    /// The terminal was resized to this many columns and rows.
    Resize(u16, u16),
    /// Pasted text, as a character sequence.
    Paste(Seq<char>),
    /// An event kind this normalizer does not recognize.
    Unrecognized,
}

impl View for RawDeviceEvent {
    type V = RawEventView;

    open spec fn view(&self) -> RawEventView {
        match *self {
            RawDeviceEvent::Key(k) => RawEventView::Key(k),
            RawDeviceEvent::Mouse(m) => RawEventView::Mouse(m),
            RawDeviceEvent::FocusGained => RawEventView::FocusGained,
            RawDeviceEvent::FocusLost => RawEventView::FocusLost,
            RawDeviceEvent::Resize(c, r) => RawEventView::Resize(c, r),
            RawDeviceEvent::Paste(s) => RawEventView::Paste(s@),
            RawDeviceEvent::Unrecognized => RawEventView::Unrecognized,
        }
    }
}

/// One answer of the non-blocking device poll: an event, or a transient
/// read failure.
#[derive(Clone, Debug, PartialEq, Eq)]
pub enum PollResult {
    /// An event was buffered and has been read.
    Event(RawDeviceEvent),
    /// The read failed transiently.
    ReadFailed,
}

/// The mathematical value of one poll answer.
pub enum PollView {
    /// An event was buffered and has been read.
    Event(RawEventView),
    /// The read failed transiently.
    ReadFailed,
}

impl View for PollResult {
    type V = PollView;

    open spec fn view(&self) -> PollView {
        match self {
            PollResult::Event(e) => PollView::Event(e@),
            PollResult::ReadFailed => PollView::ReadFailed,
        }
    }
}

/// The views of a sequence of raw events.
pub open spec fn raw_views(s: Seq<RawDeviceEvent>) -> Seq<RawEventView> {
    Seq::new(s.len(), |i: int| s[i]@)
}

/// The views of a sequence of poll answers.
pub open spec fn poll_views(s: Seq<PollResult>) -> Seq<PollView> {
    Seq::new(s.len(), |i: int| s[i]@)
}

/// The views of a sequence of paste events.
pub open spec fn paste_views(s: Seq<PasteEvent>) -> Seq<Seq<char>> {
    Seq::new(s.len(), |i: int| s[i]@)
}

/// The position of the first transient read failure in a tick's poll
/// answers, or the length if every read succeeded.
pub open spec fn first_failure(s: Seq<PollView>) -> nat
    decreases s.len(),
{
    if s.len() == 0 {
        0
    } else if s[0] is ReadFailed {
        0
    } else {
        1 + first_failure(s.drop_first())
    }
}

/// Whether a tick's poll answers contain a transient read failure.
pub open spec fn has_failure(s: Seq<PollView>) -> bool {
    first_failure(s) < s.len()
}

/// The events a tick drains: everything read before the first failure.
pub open spec fn drained_events(s: Seq<PollView>) -> Seq<RawEventView> {
    Seq::new(first_failure(s), |i: int| s[i]->Event_0)
}

/// A scan that saw `k` successful reads and then a failure (or the end)
/// has found the first failure.
pub proof fn lemma_first_failure_at(s: Seq<PollView>, k: int)
    requires
        0 <= k <= s.len(),
        forall|j: int| 0 <= j < k ==> !((#[trigger] s[j]) is ReadFailed),
        k < s.len() ==> s[k] is ReadFailed,
    ensures
        first_failure(s) == k,
    decreases s.len(),
{
    if k == 0 {
        if s.len() != 0 {
            assert(s[0] is ReadFailed);
        }
    } else {
        assert(!(s[0] is ReadFailed));
        assert forall|j: int| 0 <= j < k - 1 implies !((#[trigger] s.drop_first()[j])
            is ReadFailed) by {
            assert(s.drop_first()[j] == s[j + 1]);
        }
        assert(k - 1 < s.drop_first().len() ==> s.drop_first()[k - 1] is ReadFailed);
        lemma_first_failure_at(s.drop_first(), k - 1);
    }
}

/// The key events among a stream of raw events, in order.
pub open spec fn keys_of(s: Seq<RawEventView>) -> Seq<KeyEvent>
    decreases s.len(),
{
    if s.len() == 0 {
        Seq::empty()
    } else {
        keys_of(s.drop_last()) + (if s.last() is Key {
            seq![s.last()->Key_0]
        } else {
            Seq::empty()
        })
    }
}

/// The mouse events among a stream of raw events, in order.
pub open spec fn mouse_of(s: Seq<RawEventView>) -> Seq<MouseEvent>
    decreases s.len(),
{
    if s.len() == 0 {
        Seq::empty()
    } else {
        mouse_of(s.drop_last()) + (if s.last() is Mouse {
            seq![s.last()->Mouse_0]
        } else {
            Seq::empty()
        })
    }
}

/// The focus changes among a stream of raw events, in order.
pub open spec fn focus_of(s: Seq<RawEventView>) -> Seq<FocusEvent>
    decreases s.len(),
{
    if s.len() == 0 {
        Seq::empty()
    } else {
        focus_of(s.drop_last()) + (if s.last() is FocusGained {
            seq![FocusEvent::Gained]
        } else if s.last() is FocusLost {
            seq![FocusEvent::Lost]
        } else {
            Seq::empty()
        })
    }
}

/// The resize events among a stream of raw events, in order.
pub open spec fn resize_of(s: Seq<RawEventView>) -> Seq<ResizeEvent>
    decreases s.len(),
{
    if s.len() == 0 {
        Seq::empty()
    } else {
        resize_of(s.drop_last()) + (if s.last() is Resize {
            seq![ResizeEvent { columns: s.last()->Resize_0, rows: s.last()->Resize_1 }]
        } else {
            Seq::empty()
        })
    }
}

/// The pasted texts among a stream of raw events, in order.
pub open spec fn paste_of(s: Seq<RawEventView>) -> Seq<Seq<char>>
    decreases s.len(),
{
    if s.len() == 0 {
        Seq::empty()
    } else {
        paste_of(s.drop_last()) + (if s.last() is Paste {
            seq![s.last()->Paste_0]
        } else {
            Seq::empty()
        })
    }
}

/// Every recognized raw event lands in exactly one typed stream: a tick
/// that drains K recognized events emits exactly K classified events.
pub proof fn lemma_draining_emits_all(s: Seq<RawEventView>)
    requires
        forall|i: int| 0 <= i < s.len() ==> !((#[trigger] s[i]) is Unrecognized),
    ensures
        keys_of(s).len() + mouse_of(s).len() + focus_of(s).len() + resize_of(s).len() + paste_of(
            s,
        ).len() == s.len(),
    decreases s.len(),
{
    if s.len() != 0 {
        assert forall|i: int| 0 <= i < s.drop_last().len() implies !((#[trigger] s.drop_last()[i])
            is Unrecognized) by {
            assert(s.drop_last()[i] == s[i]);
        }
        lemma_draining_emits_all(s.drop_last());
    }
}

/// The draining policy at tick level: if K raw events are buffered before
/// the EmitRaw stage runs, every read succeeds, and every event is
/// recognized, then exactly K classified events are emitted that tick.
/// Input arriving after draining begins is not among the buffered poll
/// answers and so contributes nothing until the next tick.
pub proof fn lemma_draining_policy(polled: Seq<PollView>)
    requires
        forall|i: int|
            0 <= i < polled.len() ==> (#[trigger] polled[i]) is Event && !(polled[i]->Event_0
                is Unrecognized),
    ensures
        drained_events(polled).len() == polled.len(),
        keys_of(drained_events(polled)).len() + mouse_of(drained_events(polled)).len() + focus_of(
            drained_events(polled),
        ).len() + resize_of(drained_events(polled)).len() + paste_of(
            drained_events(polled),
        ).len() == polled.len(),
{
    lemma_first_failure_at(polled, polled.len() as int);
    assert forall|i: int| 0 <= i < drained_events(polled).len() implies !((#[trigger] drained_events(
        polled,
    )[i]) is Unrecognized) by {
        assert(drained_events(polled)[i] == polled[i]->Event_0);
    }
    lemma_draining_emits_all(drained_events(polled));
}

/// Whether one key event is the interrupt chord: the interrupt modifier
/// alone plus a literal 'c', press kind.
pub open spec fn spec_interrupt_chord(k: KeyEvent) -> bool {
    k.kind is Press && k.modifiers == MOD_CONTROL && k.code == KeyCode::Char('c')
}

/// Whether one key event is the interrupt chord.
pub fn is_interrupt_chord(k: &KeyEvent) -> (r: bool)
    ensures
        r == spec_interrupt_chord(*k),
{
    match k.kind {
        KeyEventKind::Press => match k.code {
            KeyCode::Char(c) => c == 'c' && k.modifiers == MOD_CONTROL,
            _ => false,
        },
        _ => false,
    }
}

/// How many interrupt chords a key stream holds.
pub open spec fn interrupt_count(keys: Seq<KeyEvent>) -> nat
    decreases keys.len(),
{
    if keys.len() == 0 {
        0
    } else {
        interrupt_count(keys.drop_last()) + (if spec_interrupt_chord(keys.last()) {
            1nat
        } else {
            0nat
        })
    }
}

/// A stream never holds more interrupt chords than events.
pub proof fn lemma_interrupt_count_bound(keys: Seq<KeyEvent>)
    ensures
        interrupt_count(keys) <= keys.len(),
    decreases keys.len(),
{
    if keys.len() != 0 {
        lemma_interrupt_count_bound(keys.drop_last());
    }
}

/// The Post-stage scan: counts the interrupt chords in this tick's key
/// stream, one termination signal per occurrence.
pub fn scan_interrupts(keys: &Vec<KeyEvent>) -> (n: usize)
    ensures
        n == interrupt_count(keys@),
{
    let mut n: usize = 0;
    let mut i: usize = 0;
    while i < keys.len()
        invariant
            0 <= i <= keys@.len(),
            n == interrupt_count(keys@.take(i as int)),
            n <= i,
        decreases keys@.len() - i,
    {
        proof {
            assert(keys@.take(i + 1).drop_last() =~= keys@.take(i as int));
            assert(keys@.take(i + 1).last() == keys@[i as int]);
            lemma_interrupt_count_bound(keys@.take(i as int));
        }
        if is_interrupt_chord(&keys[i]) {
            n = n + 1;
        }
        i = i + 1;
    }
    proof {
        assert(keys@.take(keys@.len() as int) =~= keys@);
    }
    n
}

/// The five ordered stages of each tick's input processing.
#[derive(Clone, Copy, Debug, PartialEq, Eq, Structural)]
pub enum InputSet {
    /// Runs before any input event is emitted; reserved for gating.
    Pre,
    /// Drains and classifies the buffered raw device events.
    EmitRaw,
    /// Reserved for virtualized input paths.
    CheckEmulation,
    /// Consumers here synthesize higher-level events from the raw and
    /// classified streams.
    EmitDerived,
    /// Runs after all derived events; global interrupt handling lives here.
    Post,
}

/// The fixed order in which the five input stages run each tick.
pub fn stage_sequence() -> (v: Vec<InputSet>)
    ensures
        v@ == seq![
            InputSet::Pre,
            InputSet::EmitRaw,
            InputSet::CheckEmulation,
            InputSet::EmitDerived,
            InputSet::Post,
        ],
{
    let mut v: Vec<InputSet> = Vec::new();
    v.push(InputSet::Pre);
    v.push(InputSet::EmitRaw);
    v.push(InputSet::CheckEmulation);
    v.push(InputSet::EmitDerived);
    v.push(InputSet::Post);
    assert(v@ =~= seq![
        InputSet::Pre,
        InputSet::EmitRaw,
        InputSet::CheckEmulation,
        InputSet::EmitDerived,
        InputSet::Post,
    ]);
    v
}

/// Everything one tick of the normalizer emits.
pub struct TickOutput {
    /// Every event drained this tick, as the device reported it.
    pub raw: Vec<RawDeviceEvent>,
    /// The classified key events.
    pub keys: Vec<KeyEvent>,
    /// The classified mouse events.
    pub mouse: Vec<MouseEvent>,
    /// The classified focus changes.
    pub focus: Vec<FocusEvent>,
    /// The classified resize events.
    pub resize: Vec<ResizeEvent>,
    /// The classified paste events.
    pub paste: Vec<PasteEvent>,
    /// The transient device error that ended the draining early, if one
    /// did.
    pub device_error: Option<SessionError>,
    /// How many termination signals the Post stage raised.
    pub exit_signals: usize,
}

/// The input normalizer and its configuration.
pub struct EventPlugin {
    /// Scan for the interrupt chord each tick and signal termination when
    /// it is found; enabled by default.
    pub control_c_interrupt: bool,
}

impl Default for EventPlugin {
    /// The default normalizer has the interrupt scan enabled.
    fn default() -> (d: EventPlugin)
        ensures
            d.control_c_interrupt,
    {
        EventPlugin { control_c_interrupt: true }
    }
}

impl EventPlugin {
    /// One tick of the normalizer over the poll answers that were buffered
    /// when the tick began.  Drains until the first read failure, records
    /// each drained event in the raw stream, classifies each into exactly
    /// one typed stream (unrecognized events go to no typed stream), and
    /// finally scans the key stream for interrupt chords if enabled.
    /// Events arriving after draining begins are simply not in `polled`:
    /// they wait for the next tick.
    pub fn run_tick(&self, polled: &Vec<PollResult>) -> (out: TickOutput)
        ensures
            raw_views(out.raw@) == drained_events(poll_views(polled@)),
            out.device_error == (if has_failure(poll_views(polled@)) {
                Some(SessionError::DeviceIOError)
            } else {
                None::<SessionError>
            }),
            out.keys@ == keys_of(drained_events(poll_views(polled@))),
            out.mouse@ == mouse_of(drained_events(poll_views(polled@))),
            out.focus@ == focus_of(drained_events(poll_views(polled@))),
            out.resize@ == resize_of(drained_events(poll_views(polled@))),
            paste_views(out.paste@) == paste_of(drained_events(poll_views(polled@))),
            out.exit_signals == (if self.control_c_interrupt {
                interrupt_count(keys_of(drained_events(poll_views(polled@))))
            } else {
                0nat
            }),
    {
        let ghost pv = poll_views(polled@);
        let mut raw: Vec<RawDeviceEvent> = Vec::new();
        let mut keys: Vec<KeyEvent> = Vec::new();
        let mut mouse: Vec<MouseEvent> = Vec::new();
        let mut focus: Vec<FocusEvent> = Vec::new();
        let mut resize: Vec<ResizeEvent> = Vec::new();
        let mut paste: Vec<PasteEvent> = Vec::new();
        let mut failed = false;
        let mut i: usize = 0;
        proof {
            assert(keys@ =~= keys_of(raw_views(raw@)));
            assert(mouse@ =~= mouse_of(raw_views(raw@)));
            assert(focus@ =~= focus_of(raw_views(raw@)));
            assert(resize@ =~= resize_of(raw_views(raw@)));
            assert(paste_views(paste@) =~= paste_of(raw_views(raw@)));
        }
        while i < polled.len() && !failed
            invariant
                pv == poll_views(polled@),
                pv.len() == polled@.len(),
                0 <= i <= pv.len(),
                forall|j: int| 0 <= j < i ==> (#[trigger] pv[j]) is Event,
                failed ==> i < pv.len() && pv[i as int] is ReadFailed,
                raw@.len() == i,
                forall|j: int| 0 <= j < i ==> (#[trigger] raw@[j])@ == pv[j]->Event_0,
                keys@ == keys_of(raw_views(raw@)),
                mouse@ == mouse_of(raw_views(raw@)),
                focus@ == focus_of(raw_views(raw@)),
                resize@ == resize_of(raw_views(raw@)),
                paste_views(paste@) == paste_of(raw_views(raw@)),
            decreases pv.len() - i + (if failed { 0int } else { 1int }),
        {
            let ghost pre_raw = raw_views(raw@);
            match &polled[i] {
                PollResult::ReadFailed => {
                    failed = true;
                },
                PollResult::Event(e) => {
                    match e {
                        RawDeviceEvent::Key(k) => {
                            keys.push(*k);
                            raw.push(RawDeviceEvent::Key(*k));
                        },
                        RawDeviceEvent::Mouse(m) => {
                            mouse.push(*m);
                            raw.push(RawDeviceEvent::Mouse(*m));
                        },
                        RawDeviceEvent::FocusGained => {
                            focus.push(FocusEvent::Gained);
                            raw.push(RawDeviceEvent::FocusGained);
                        },
                        RawDeviceEvent::FocusLost => {
                            focus.push(FocusEvent::Lost);
                            raw.push(RawDeviceEvent::FocusLost);
                        },
                        RawDeviceEvent::Resize(c, r) => {
                            resize.push(ResizeEvent { columns: *c, rows: *r });
                            raw.push(RawDeviceEvent::Resize(*c, *r));
                        },
                        RawDeviceEvent::Paste(s) => {
                            paste.push(PasteEvent(s.clone()));
                            raw.push(RawDeviceEvent::Paste(s.clone()));
                        },
                        RawDeviceEvent::Unrecognized => {
                            raw.push(RawDeviceEvent::Unrecognized);
                        },
                    }
                    proof {
                        let post_raw = raw_views(raw@);
                        assert(raw@[i as int]@ == pv[i as int]->Event_0);
                        assert(post_raw.drop_last() =~= pre_raw);
                        assert(post_raw.last() == raw@[i as int]@);
                        assert(keys@ =~= keys_of(post_raw));
                        assert(mouse@ =~= mouse_of(post_raw));
                        assert(focus@ =~= focus_of(post_raw));
                        assert(resize@ =~= resize_of(post_raw));
                        assert(paste_views(paste@) =~= paste_of(post_raw));
                    }
                    i = i + 1;
                },
            }
        }
        proof {
            if failed {
                lemma_first_failure_at(pv, i as int);
            } else {
                lemma_first_failure_at(pv, pv.len() as int);
            }
            assert(raw_views(raw@) =~= drained_events(pv));
            assert(paste_views(paste@) =~= paste_of(drained_events(pv)));
        }
        let exit_signals: usize = if self.control_c_interrupt {
            scan_interrupts(&keys)
        } else {
            0
        };
        let device_error = if failed {
            Some(SessionError::DeviceIOError)
        } else {
            None
        };
        TickOutput { raw, keys, mouse, focus, resize, paste, device_error, exit_signals }
    }
}

} // verus!
