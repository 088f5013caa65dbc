//! A line of text under edit, with its cursor, changed as `tui_input` changes it.
use vstd::prelude::*;
use tui_input::InputRequest;

verus! {

/// `tui_input::InputRequest`, read as the enum it is: one edit of a line.
#[verifier::external_type_specification]
pub struct ExInputRequest(tui_input::InputRequest);

/// A line of text and a cursor, counted in characters, that stands at most at its end.
pub struct EditBuffer {
    value: String,
    cursor: usize,
}

/// What a request does to a line and its cursor, as `tui_input::Input::handle` does it.
/// Of the requests that move by words only the cursor's bound is stated.
pub open spec fn handled(v: Seq<char>, c: nat, req: InputRequest, w: Seq<char>, d: nat) -> bool {
    &&& d <= w.len()
    &&& match req {
        InputRequest::SetCursor(pos) => w == v && d == if pos <= v.len() {
            pos as nat
        } else {
            v.len()
        },
        InputRequest::InsertChar(ch) => w == v.take(c as int).push(ch) + v.skip(c as int) && d == c
            + 1,
        InputRequest::GoToPrevChar => w == v && d == if c == 0 {
            0
        } else {
            (c - 1) as nat
        },
        InputRequest::GoToNextChar => w == v && d == if c == v.len() {
            c
        } else {
            c + 1
        },
        InputRequest::GoToStart => w == v && d == 0,
        InputRequest::GoToEnd => w == v && d == v.len(),
        InputRequest::DeletePrevChar => if c == 0 {
            w == v && d == 0
        } else {
            w == v.remove(c - 1) && d == c - 1
        },
        InputRequest::DeleteNextChar => if c == v.len() {
            w == v && d == c
        } else {
            w == v.remove(c as int) && d == c
        },
        InputRequest::DeleteLine => w.len() == 0 && d == 0,
        InputRequest::DeleteTillEnd => w == v.take(c as int) && d == c,
        InputRequest::GoToPrevWord => w == v,
        InputRequest::GoToNextWord => w == v,
        InputRequest::DeletePrevWord => true,
        InputRequest::DeleteNextWord => true,
    }
}

impl EditBuffer {
    pub closed spec fn text(&self) -> Seq<char> {
        self.value@
    }

    pub closed spec fn position(&self) -> nat {
        self.cursor as nat
    }

    pub closed spec fn wf(&self) -> bool {
        self.cursor <= self.value@.len()
    }

    /// A buffer holding `value`, with the cursor at its end.
    pub fn new(value: String) -> (r: EditBuffer)
        ensures
            r.wf(),
            r.text() == value@,
            r.position() == value@.len(),
    {
        let n = value.as_str().unicode_len();
        EditBuffer { value, cursor: n }
    }

    pub fn value(&self) -> (r: &String)
        ensures
            r@ == self.text(),
    {
        &self.value
    }

    pub fn cursor(&self) -> (r: usize)
        ensures
            r == self.position(),
    {
        self.cursor
    }

    /// Relies on `tui_input::Input::handle`, on an input made with `Input::new` and
    /// `Input::with_cursor` from this buffer.
    #[verifier::external_body]
    pub(crate) fn handle(&self, req: InputRequest) -> (r: EditBuffer)
        requires
            self.wf(),
        ensures
            r.wf(),
            handled(self.text(), self.position(), req, r.text(), r.position()),
    {
        let mut input = tui_input::Input::new(self.value.clone()).with_cursor(self.cursor);
        input.handle(req);
        EditBuffer { value: input.value().to_string(), cursor: input.cursor() }
    }
}

} // verus!
