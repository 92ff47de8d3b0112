//! The escape-sequence parser: a state machine after Paul Williams' diagram
//! for DEC-compatible terminals, which turns bytes into [`Action`]s one byte
//! at a time.
use vstd::prelude::*;

verus! {

#[derive(Debug, Clone, Copy, PartialEq, Eq, Structural)]
pub enum State {
    Ground,
    Escape,
    EscapeIntermediate,
    CsiEntry,
    CsiParam,
    CsiIntermediate,
    CsiIgnore,
    OscString,
    DcsEntry,
    DcsParam,
    DcsIntermediate,
    DcsPassthrough,
    DcsIgnore,
    SosPmApcString,
}

/// What a byte makes the terminal do.
#[derive(Debug, Clone, PartialEq)]
pub enum Action {
    /// Printable character
    Print(char),
    /// C0 control (BEL, BS, HT, LF, CR, etc.)
    Execute(u8),
    /// CSI dispatch: final byte, params, intermediates
    CsiDispatch { final_byte: u8, params: Vec<u16>, intermediates: Vec<u8> },
    /// ESC dispatch
    EscDispatch { final_byte: u8, intermediates: Vec<u8> },
    /// OSC string complete
    OscDispatch(Vec<u8>),
    /// No action
    Nothing,
}

/// The mathematical value of an [`Action`].
pub enum ActionView {
    Print(char),
    Execute(u8),
    CsiDispatch { final_byte: u8, params: Seq<u16>, intermediates: Seq<u8> },
    EscDispatch { final_byte: u8, intermediates: Seq<u8> },
    OscDispatch(Seq<u8>),
    Nothing,
}

impl View for Action {
    type V = ActionView;

    open spec fn view(&self) -> ActionView {
        match *self {
            Action::Print(ch) => ActionView::Print(ch),
            Action::Execute(byte) => ActionView::Execute(byte),
            Action::CsiDispatch { final_byte, params, intermediates } => ActionView::CsiDispatch {
                final_byte,
                params: params@,
                intermediates: intermediates@,
            },
            Action::EscDispatch { final_byte, intermediates } => ActionView::EscDispatch {
                final_byte,
                intermediates: intermediates@,
            },
            Action::OscDispatch(data) => ActionView::OscDispatch(data@),
            Action::Nothing => ActionView::Nothing,
        }
    }
}

/// The values of a sequence of actions.
pub open spec fn action_views(actions: Seq<Action>) -> Seq<ActionView> {
    Seq::new(actions.len(), |i: int| actions[i]@)
}

/// The mathematical value of a [`VtParser`].
pub struct ParserState {
    pub state: State,
    pub params: Seq<u16>,
    pub current_param: u16,
    pub intermediates: Seq<u8>,
    pub osc_data: Seq<u8>,
}

/// The parameter `current` with the decimal digit `digit` appended, held at
/// the largest value of a parameter.
pub open spec fn push_digit(current: u16, digit: int) -> u16 {
    if current * 10 + digit > 0xffff {
        0xffff
    } else {
        (current * 10 + digit) as u16
    }
}

impl ParserState {
    /// The parser before any byte: on the ground, with empty buffers.
    pub open spec fn initial() -> ParserState {
        ParserState {
            state: State::Ground,
            params: Seq::empty(),
            current_param: 0,
            intermediates: Seq::empty(),
            osc_data: Seq::empty(),
        }
    }

    /// `self` in state `state`, with the buffers emptied.
    pub open spec fn cleared(self, state: State) -> ParserState {
        ParserState { state, ..ParserState::initial() }
    }

    pub open spec fn to(self, state: State) -> ParserState {
        ParserState { state, ..self }
    }

    pub open spec fn push_intermediate(self, byte: u8) -> ParserState {
        ParserState { intermediates: self.intermediates.push(byte), ..self }
    }

    pub open spec fn push_param(self) -> ParserState {
        ParserState { params: self.params.push(self.current_param), current_param: 0, ..self }
    }

    /// The CSI dispatch of `final_byte` with the buffers as they are.
    pub open spec fn csi(self, final_byte: u8) -> (ParserState, ActionView) {
        (
            self.cleared(State::Ground),
            ActionView::CsiDispatch {
                final_byte,
                params: self.params,
                intermediates: self.intermediates,
            },
        )
    }

    /// The ESC dispatch of `final_byte` with the buffers as they are.
    pub open spec fn esc(self, final_byte: u8) -> (ParserState, ActionView) {
        (
            self.cleared(State::Ground),
            ActionView::EscDispatch { final_byte, intermediates: self.intermediates },
        )
    }

    /// On the ground, controls are executed and printable ASCII is printed.
    /// DEL is dropped. A byte from 0x80 on is reported as the replacement
    /// character: the caller decodes it.
    pub open spec fn ground(self, byte: u8) -> (ParserState, ActionView) {
        if byte <= 0x1f {
            (self, ActionView::Execute(byte))
        } else if byte <= 0x7e {
            (self, ActionView::Print(byte as char))
        } else if byte == 0x7f {
            (self, ActionView::Nothing)
        } else {
            (self, ActionView::Print('\u{FFFD}'))
        }
    }

    pub open spec fn escape(self, byte: u8) -> (ParserState, ActionView) {
        if 0x20 <= byte <= 0x2f {
            (self.push_intermediate(byte).to(State::EscapeIntermediate), ActionView::Nothing)
        } else if byte == 0x5b {
            (self.cleared(State::CsiEntry), ActionView::Nothing)
        } else if byte == 0x5d {
            (ParserState { osc_data: Seq::empty(), ..self }.to(State::OscString), ActionView::Nothing)
        } else if 0x30 <= byte <= 0x7e {
            self.esc(byte)
        } else {
            (self, ActionView::Nothing)
        }
    }

    pub open spec fn escape_intermediate(self, byte: u8) -> (ParserState, ActionView) {
        if 0x20 <= byte <= 0x2f {
            (self.push_intermediate(byte), ActionView::Nothing)
        } else if 0x30 <= byte <= 0x7e {
            self.esc(byte)
        } else {
            (self, ActionView::Nothing)
        }
    }

    pub open spec fn csi_entry(self, byte: u8) -> (ParserState, ActionView) {
        if 0x30 <= byte <= 0x39 {
            (
                ParserState { current_param: (byte - 0x30) as u16, ..self }.to(State::CsiParam),
                ActionView::Nothing,
            )
        } else if byte == 0x3b {
            (
                ParserState { params: self.params.push(0), ..self }.to(State::CsiParam),
                ActionView::Nothing,
            )
        } else if 0x3c <= byte <= 0x3f {
            (self.push_intermediate(byte).to(State::CsiParam), ActionView::Nothing)
        } else if 0x20 <= byte <= 0x2f {
            (self.push_intermediate(byte).to(State::CsiIntermediate), ActionView::Nothing)
        } else if 0x40 <= byte <= 0x7e {
            self.csi(byte)
        } else {
            (self, ActionView::Nothing)
        }
    }

    pub open spec fn csi_param(self, byte: u8) -> (ParserState, ActionView) {
        if 0x30 <= byte <= 0x39 {
            (
                ParserState {
                    current_param: push_digit(self.current_param, byte - 0x30),
                    ..self
                },
                ActionView::Nothing,
            )
        } else if byte == 0x3b {
            (self.push_param(), ActionView::Nothing)
        } else if 0x20 <= byte <= 0x2f {
            (
                self.push_param().push_intermediate(byte).to(State::CsiIntermediate),
                ActionView::Nothing,
            )
        } else if 0x40 <= byte <= 0x7e {
            self.push_param().csi(byte)
        } else {
            (self.to(State::CsiIgnore), ActionView::Nothing)
        }
    }

    pub open spec fn csi_intermediate(self, byte: u8) -> (ParserState, ActionView) {
        if 0x20 <= byte <= 0x2f {
            (self.push_intermediate(byte), ActionView::Nothing)
        } else if 0x40 <= byte <= 0x7e {
            self.csi(byte)
        } else {
            (self.to(State::CsiIgnore), ActionView::Nothing)
        }
    }

    pub open spec fn csi_ignore(self, byte: u8) -> (ParserState, ActionView) {
        if 0x40 <= byte <= 0x7e {
            (self.cleared(State::Ground), ActionView::Nothing)
        } else {
            (self, ActionView::Nothing)
        }
    }

    pub open spec fn osc_string(self, byte: u8) -> (ParserState, ActionView) {
        if byte == 0x07 || byte == 0x9c {
            (self.cleared(State::Ground), ActionView::OscDispatch(self.osc_data))
        } else {
            (ParserState { osc_data: self.osc_data.push(byte), ..self }, ActionView::Nothing)
        }
    }

    /// The parser after `byte`, and the action that the byte completes.
    /// In any state CAN and SUB return to the ground and are executed, and ESC
    /// opens an escape sequence; both empty the buffers. The states of device
    /// control and SOS/PM/APC strings take no byte.
    pub open spec fn advance(self, byte: u8) -> (ParserState, ActionView) {
        if byte == 0x18 || byte == 0x1a {
            (self.cleared(State::Ground), ActionView::Execute(byte))
        } else if byte == 0x1b {
            (self.cleared(State::Escape), ActionView::Nothing)
        } else {
            match self.state {
                State::Ground => self.ground(byte),
                State::Escape => self.escape(byte),
                State::EscapeIntermediate => self.escape_intermediate(byte),
                State::CsiEntry => self.csi_entry(byte),
                State::CsiParam => self.csi_param(byte),
                State::CsiIntermediate => self.csi_intermediate(byte),
                State::CsiIgnore => self.csi_ignore(byte),
                State::OscString => self.osc_string(byte),
                _ => (self, ActionView::Nothing),
            }
        }
    }

    /// The parser after the bytes of `data`, and the actions that they
    /// completed, in order.
    pub open spec fn feed(self, data: Seq<u8>) -> (ParserState, Seq<ActionView>)
        decreases data.len(),
    {
        if data.len() == 0 {
            (self, Seq::empty())
        } else {
            let (before, actions) = self.feed(data.drop_last());
            let (after, action) = before.advance(data.last());
            (
                after,
                if action is Nothing {
                    actions
                } else {
                    actions.push(action)
                },
            )
        }
    }
}

/// The parser's state machine and the buffers of the sequence in progress.
pub struct VtParser {
    pub state: State,
    pub params: Vec<u16>,
    pub current_param: u16,
    pub intermediates: Vec<u8>,
    pub osc_data: Vec<u8>,
}

impl View for VtParser {
    type V = ParserState;

    open spec fn view(&self) -> ParserState {
        ParserState {
            state: self.state,
            params: self.params@,
            current_param: self.current_param,
            intermediates: self.intermediates@,
            osc_data: self.osc_data@,
        }
    }
}

fn take_bytes(v: &mut Vec<u8>) -> (r: Vec<u8>)
    ensures
        r@ == old(v)@,
        final(v)@ == Seq::<u8>::empty(),
{
    let mut out: Vec<u8> = Vec::new();
    core::mem::swap(v, &mut out);
    out
}

fn take_params(v: &mut Vec<u16>) -> (r: Vec<u16>)
    ensures
        r@ == old(v)@,
        final(v)@ == Seq::<u16>::empty(),
{
    let mut out: Vec<u16> = Vec::new();
    core::mem::swap(v, &mut out);
    out
}

impl VtParser {
    pub fn new() -> (p: VtParser)
        ensures
            p@ == ParserState::initial(),
    {
        VtParser {
            state: State::Ground,
            params: Vec::with_capacity(16),
            current_param: 0,
            intermediates: Vec::with_capacity(4),
            osc_data: Vec::with_capacity(256),
        }
    }

    /// Feed a single byte, return the resulting action.
    pub fn advance(&mut self, byte: u8) -> (action: Action)
        ensures
            (final(self)@, action@) == old(self)@.advance(byte),
    {
        if byte == 0x18 || byte == 0x1a {
            self.clear();
            return Action::Execute(byte);
        }
        if byte == 0x1b {
            self.clear();
            self.state = State::Escape;
            return Action::Nothing;
        }
        match self.state {
            State::Ground => self.ground(byte),
            State::Escape => self.escape(byte),
            State::EscapeIntermediate => self.escape_intermediate(byte),
            State::CsiEntry => self.csi_entry(byte),
            State::CsiParam => self.csi_param(byte),
            State::CsiIntermediate => self.csi_intermediate(byte),
            State::CsiIgnore => self.csi_ignore(byte),
            State::OscString => self.osc_string(byte),
            _ => Action::Nothing,
        }
    }

    /// Feed a slice of bytes, collecting all actions.
    pub fn feed(&mut self, data: &[u8]) -> (actions: Vec<Action>)
        ensures
            (final(self)@, action_views(actions@)) == old(self)@.feed(data@),
    {
        let mut out: Vec<Action> = Vec::new();
        let mut i: usize = 0;
        assert(action_views(out@) =~= Seq::<ActionView>::empty());
        assert(data@.take(0) =~= Seq::<u8>::empty());
        while i < data.len()
            invariant
                i <= data.len(),
                (self@, action_views(out@)) == old(self)@.feed(data@.take(i as int)),
            decreases data.len() - i,
        {
            let ghost seen = action_views(out@);
            let action = self.advance(data[i]);
            proof {
                assert(data@.take(i + 1).drop_last() =~= data@.take(i as int));
                assert(data@.take(i + 1).last() == data@[i as int]);
            }
            match action {
                Action::Nothing => {},
                _ => {
                    out.push(action);
                    assert(action_views(out@) =~= seen.push(action@));
                },
            }
            i += 1;
        }
        assert(data@.take(data.len() as int) =~= data@);
        out
    }

    /// Empties the buffers and returns to the ground.
    fn clear(&mut self)
        ensures
            final(self)@ == old(self)@.cleared(State::Ground),
    {
        self.state = State::Ground;
        self.params.clear();
        self.current_param = 0;
        self.intermediates.clear();
        self.osc_data.clear();
    }

    fn dispatch_csi(&mut self, final_byte: u8) -> (action: Action)
        ensures
            (final(self)@, action@) == old(self)@.csi(final_byte),
    {
        let params = take_params(&mut self.params);
        let intermediates = take_bytes(&mut self.intermediates);
        self.clear();
        Action::CsiDispatch { final_byte, params, intermediates }
    }

    fn dispatch_esc(&mut self, final_byte: u8) -> (action: Action)
        ensures
            (final(self)@, action@) == old(self)@.esc(final_byte),
    {
        let intermediates = take_bytes(&mut self.intermediates);
        self.clear();
        Action::EscDispatch { final_byte, intermediates }
    }

    fn ground(&mut self, byte: u8) -> (action: Action)
        ensures
            (final(self)@, action@) == old(self)@.ground(byte),
    {
        if byte <= 0x1f {
            Action::Execute(byte)
        } else if byte <= 0x7e {
            Action::Print(byte as char)
        } else if byte == 0x7f {
            Action::Nothing
        } else {
            Action::Print('\u{FFFD}')
        }
    }

    fn escape(&mut self, byte: u8) -> (action: Action)
        ensures
            (final(self)@, action@) == old(self)@.escape(byte),
    {
        if byte >= 0x20 && byte <= 0x2f {
            self.intermediates.push(byte);
            self.state = State::EscapeIntermediate;
            Action::Nothing
        } else if byte == 0x5b {
            self.clear();
            self.state = State::CsiEntry;
            Action::Nothing
        } else if byte == 0x5d {
            self.osc_data.clear();
            self.state = State::OscString;
            Action::Nothing
        } else if byte >= 0x30 && byte <= 0x7e {
            self.dispatch_esc(byte)
        } else {
            Action::Nothing
        }
    }

    fn escape_intermediate(&mut self, byte: u8) -> (action: Action)
        ensures
            (final(self)@, action@) == old(self)@.escape_intermediate(byte),
    {
        if byte >= 0x20 && byte <= 0x2f {
            self.intermediates.push(byte);
            Action::Nothing
        } else if byte >= 0x30 && byte <= 0x7e {
            self.dispatch_esc(byte)
        } else {
            Action::Nothing
        }
    }

    fn csi_entry(&mut self, byte: u8) -> (action: Action)
        ensures
            (final(self)@, action@) == old(self)@.csi_entry(byte),
    {
        if byte >= 0x30 && byte <= 0x39 {
            self.current_param = (byte - 0x30) as u16;
            self.state = State::CsiParam;
            Action::Nothing
        } else if byte == 0x3b {
            self.params.push(0);
            self.state = State::CsiParam;
            Action::Nothing
        } else if byte >= 0x3c && byte <= 0x3f {
            self.intermediates.push(byte);
            self.state = State::CsiParam;
            Action::Nothing
        } else if byte >= 0x20 && byte <= 0x2f {
            self.intermediates.push(byte);
            self.state = State::CsiIntermediate;
            Action::Nothing
        } else if byte >= 0x40 && byte <= 0x7e {
            self.dispatch_csi(byte)
        } else {
            Action::Nothing
        }
    }

    fn csi_param(&mut self, byte: u8) -> (action: Action)
        ensures
            (final(self)@, action@) == old(self)@.csi_param(byte),
    {
        if byte >= 0x30 && byte <= 0x39 {
            let digit = (byte - 0x30) as u16;
            self.current_param = if self.current_param > (0xffff - digit) / 10 {
                0xffff
            } else {
                self.current_param * 10 + digit
            };
            Action::Nothing
        } else if byte == 0x3b {
            self.params.push(self.current_param);
            self.current_param = 0;
            Action::Nothing
        } else if byte >= 0x20 && byte <= 0x2f {
            self.params.push(self.current_param);
            self.current_param = 0;
            self.intermediates.push(byte);
            self.state = State::CsiIntermediate;
            Action::Nothing
        } else if byte >= 0x40 && byte <= 0x7e {
            self.params.push(self.current_param);
            self.current_param = 0;
            self.dispatch_csi(byte)
        } else {
            self.state = State::CsiIgnore;
            Action::Nothing
        }
    }

    fn csi_intermediate(&mut self, byte: u8) -> (action: Action)
        ensures
            (final(self)@, action@) == old(self)@.csi_intermediate(byte),
    {
        if byte >= 0x20 && byte <= 0x2f {
            self.intermediates.push(byte);
            Action::Nothing
        } else if byte >= 0x40 && byte <= 0x7e {
            self.dispatch_csi(byte)
        } else {
            self.state = State::CsiIgnore;
            Action::Nothing
        }
    }

    fn csi_ignore(&mut self, byte: u8) -> (action: Action)
        ensures
            (final(self)@, action@) == old(self)@.csi_ignore(byte),
    {
        if byte >= 0x40 && byte <= 0x7e {
            self.clear();
        }
        Action::Nothing
    }

    fn osc_string(&mut self, byte: u8) -> (action: Action)
        ensures
            (final(self)@, action@) == old(self)@.osc_string(byte),
    {
        if byte == 0x07 || byte == 0x9c {
            let data = take_bytes(&mut self.osc_data);
            self.clear();
            Action::OscDispatch(data)
        } else {
            self.osc_data.push(byte);
            Action::Nothing
        }
    }
}

impl Default for VtParser {
    fn default() -> (p: VtParser)
        ensures
            p@ == ParserState::initial(),
    {
        VtParser::new()
    }
}

} // verus!
