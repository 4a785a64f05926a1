//! Server-sent events as the streaming endpoints deliver them.
use vstd::prelude::*;

verus! {

/// One event of a server-sent event stream: its `event:` name, when it has
/// one, and its `data:` lines joined.
#[derive(Clone, Debug)]
pub struct SseFrame {
    pub event: Option<String>,
    pub data: String,
}

impl SseFrame {
    pub fn new(event: Option<String>, data: String) -> (f: SseFrame)
        ensures
            f.event == event,
            f.data == data,
    {
        SseFrame { event, data }
    }
}


/// The value of the field `name` on one line of an event stream: the line is
/// `name`, a colon and the value, where one space after the colon is dropped.
pub open spec fn field_value_spec(line: Seq<char>, name: Seq<char>) -> Option<Seq<char>> {
    let k = name.len() as int;
    if line.len() > k && line.subrange(0, k) == name && line[k] == ':' {
        let rest = line.subrange(k + 1, line.len() as int);
        if rest.len() > 0 && rest[0] == ' ' {
            Some(rest.drop_first())
        } else {
            Some(rest)
        }
    } else {
        None
    }
}

/// Reads the field `name` off one line; `None` when the line holds another field.
pub fn field_value<'a>(line: &'a str, name: &str) -> (r: Option<&'a str>)
    ensures
        r is Some <==> field_value_spec(line@, name@) is Some,
        r matches Some(v) ==> field_value_spec(line@, name@) == Some(v@),
{
    let n = line.unicode_len();
    let k = name.unicode_len();
    if n <= k {
        return None;
    }
    let mut i: usize = 0;
    while i < k
        invariant
            n == line@.len(),
            k == name@.len(),
            k < n,
            i <= k,
            forall|j: int| 0 <= j < i ==> line@[j] == name@[j],
        decreases k - i,
    {
        if line.get_char(i) != name.get_char(i) {
            proof {
                assert(line@.subrange(0, k as int)[i as int] != name@[i as int]);
            }
            return None;
        }
        i = i + 1;
    }
    assert(line@.subrange(0, k as int) =~= name@);
    if line.get_char(k) != ':' {
        return None;
    }
    let start = k + 1;
    if start < n && line.get_char(start) == ' ' {
        let v = line.substring_char(start + 1, n);
        proof {
            let rest = line@.subrange(start as int, n as int);
            assert(rest.drop_first() =~= v@);
        }
        Some(v)
    } else {
        let v = line.substring_char(start, n);
        Some(v)
    }
}

/// What an event stream has announced of the event it is reading: its name,
/// and its data lines joined by newlines (`None` before the first one).
pub struct PendingEvent {
    pub event: Option<Seq<char>>,
    pub data: Option<Seq<char>>,
}

/// The data after one more `data:` line.
pub open spec fn joined_data(data: Option<Seq<char>>, line: Seq<char>) -> Seq<char> {
    match data {
        Some(d) => d + seq!['\n'] + line,
        None => line,
    }
}

/// The frame a blank line dispatches, if anything is pending.
pub open spec fn dispatched(p: PendingEvent) -> Option<(Option<Seq<char>>, Seq<char>)> {
    if p.event is Some || p.data is Some {
        Some(
            (
                p.event,
                match p.data {
                    Some(d) => d,
                    None => Seq::empty(),
                },
            ),
        )
    } else {
        None
    }
}

pub open spec fn empty_pending() -> PendingEvent {
    PendingEvent { event: None, data: None }
}

/// One line of an event stream: a blank line dispatches what is pending,
/// `event:` names the event, `data:` adds a data line; comments (a leading
/// colon) and other fields change nothing.
pub open spec fn next_pending(p: PendingEvent, line: Seq<char>) -> PendingEvent {
    if line.len() == 0 {
        empty_pending()
    } else if line[0] == ':' {
        p
    } else if field_value_spec(line, "event"@) is Some {
        PendingEvent { event: field_value_spec(line, "event"@), data: p.data }
    } else if field_value_spec(line, "data"@) is Some {
        PendingEvent {
            event: p.event,
            data: Some(joined_data(p.data, field_value_spec(line, "data"@)->Some_0)),
        }
    } else {
        p
    }
}

pub open spec fn frame_view(f: SseFrame) -> (Option<Seq<char>>, Seq<char>) {
    (
        match f.event {
            Some(e) => Some(e@),
            None => None,
        },
        f.data@,
    )
}

/// Turns the lines of an event stream into frames.
pub struct SseDecoder {
    event: Option<String>,
    data: Option<String>,
}

impl SseDecoder {
    /// What the decoder holds of the event it is reading.
    pub closed spec fn pending(&self) -> PendingEvent {
        PendingEvent {
            event: match self.event {
                Some(e) => Some(e@),
                None => None,
            },
            data: match self.data {
                Some(d) => Some(d@),
                None => None,
            },
        }
    }

    pub fn new() -> (d: SseDecoder)
        ensures
            d.pending() == empty_pending(),
    {
        SseDecoder { event: None, data: None }
    }

    fn take_frame(&mut self) -> (r: Option<SseFrame>)
        ensures
            final(self).pending() == empty_pending(),
            match r {
                Some(f) => dispatched(old(self).pending()) == Some(frame_view(f)),
                None => dispatched(old(self).pending()) is None,
            },
    {
        let event = self.event.take();
        let data = self.data.take();
        if event.is_none() && data.is_none() {
            return None;
        }
        let data = match data {
            Some(d) => d,
            None => String::new(),
        };
        let f = SseFrame { event, data };
        proof {
            if old(self).data is None {
                assert(f.data@ =~= Seq::<char>::empty());
            }
        }
        Some(f)
    }

    /// Reads one line (without its line break); gives the frame that a blank line completes.
    pub fn push_line(&mut self, line: &str) -> (r: Option<SseFrame>)
        ensures
            final(self).pending() == next_pending(old(self).pending(), line@),
            line@.len() == 0 ==> match r {
                Some(f) => dispatched(old(self).pending()) == Some(frame_view(f)),
                None => dispatched(old(self).pending()) is None,
            },
            line@.len() != 0 ==> r is None,
    {
        let n = line.unicode_len();
        if n == 0 {
            return self.take_frame();
        }
        if line.get_char(0) == ':' {
            return None;
        }
        match field_value(line, "event") {
            Some(v) => {
                self.event = Some(v.to_string());
                return None;
            },
            None => {},
        }
        match field_value(line, "data") {
            Some(v) => {
                let joined = match self.data.take() {
                    Some(mut d) => {
                        let ghost before = d@;
                        crate::text::push_char(&mut d, '\n');
                        crate::text::push_str(&mut d, v);
                        assert(d@ =~= before + seq!['\n'] + v@);
                        d
                    },
                    None => v.to_string(),
                };
                self.data = Some(joined);
                None
            },
            None => None,
        }
    }

    /// The end of the stream: the frame still pending, if any.
    pub fn finish(&mut self) -> (r: Option<SseFrame>)
        ensures
            final(self).pending() == empty_pending(),
            match r {
                Some(f) => dispatched(old(self).pending()) == Some(frame_view(f)),
                None => dispatched(old(self).pending()) is None,
            },
    {
        self.take_frame()
    }
}

} // verus!
