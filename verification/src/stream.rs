//! The download loop's decisions, over a model of the response body stream.
//!
//! A download consumes the body chunk by chunk as the chunks arrive and
//! appends each to the destination file in arrival order. The stream hands
//! back one event at a time: a chunk of bytes, a clean end, or a mid-flight
//! failure. A failed read is treated exactly like a clean end — consumption
//! silently stops, leaving whatever prefix was already written. That
//! equation of the two is documented existing behavior, not a designed one.

use vstd::prelude::*;

verus! {

/// One observation of the response body stream.
pub enum StreamEvent {
    /// The next chunk of body bytes arrived.
    Chunk(Vec<u8>),
    /// The stream ended cleanly.
    End,
    /// A chunk read failed mid-flight.
    Failed,
}

/// The decision taken on one stream event: the bytes to append to the
/// destination, or `None` to stop consuming the stream.
pub open spec fn step_spec(ev: StreamEvent) -> Option<Seq<u8>> {
    match ev {
        StreamEvent::Chunk(data) => Some(data@),
        StreamEvent::End => None,
        StreamEvent::Failed => None,
    }
}

/// Decide what to do with one stream event: append the chunk's bytes, or
/// stop. A failed read stops consumption just as a clean end does; it is
/// not surfaced as an error.
pub fn download_step<'a>(ev: &'a StreamEvent) -> (r: Option<&'a Vec<u8>>)
    ensures
        match r {
            Some(d) => step_spec(*ev) == Some(d@),
            None => step_spec(*ev) is None,
        },
{
    match ev {
        StreamEvent::Chunk(data) => Some(data),
        StreamEvent::End => None,
        StreamEvent::Failed => None,
    }
}

/// The bytes a download writes to the destination, given the stream's
/// events in arrival order: the concatenation of every chunk before the
/// first end or failure, in order.
pub open spec fn body_bytes(events: Seq<StreamEvent>) -> Seq<u8>
    decreases events.len(),
{
    if events.len() == 0 {
        Seq::empty()
    } else {
        match events[0] {
            StreamEvent::Chunk(data) => data@ + body_bytes(events.skip(1)),
            StreamEvent::End => Seq::empty(),
            StreamEvent::Failed => Seq::empty(),
        }
    }
}

/// Run the download loop's decisions over a complete sequence of stream
/// events and return the bytes that would be written to the destination.
pub fn collect_body(events: &Vec<StreamEvent>) -> (out: Vec<u8>)
    ensures
        out@ == body_bytes(events@),
{
    let mut out: Vec<u8> = Vec::new();
    let mut i: usize = 0;
    proof {
        assert(events@.skip(0) =~= events@);
        assert(Seq::<u8>::empty() + body_bytes(events@) =~= body_bytes(events@));
    }
    while i < events.len()
        invariant
            i <= events@.len(),
            body_bytes(events@) == out@ + body_bytes(events@.skip(i as int)),
        decreases events@.len() - i,
    {
        match download_step(&events[i]) {
            Some(data) => {
                proof {
                    assert(events@.skip(i as int)[0] == events@[i as int]);
                    assert(events@.skip(i as int).skip(1) =~= events@.skip(i as int + 1));
                }
                let ghost out0 = out@;
                let mut j: usize = 0;
                while j < data.len()
                    invariant
                        j <= data@.len(),
                        out@ == out0 + data@.take(j as int),
                    decreases data@.len() - j,
                {
                    out.push(data[j]);
                    proof {
                        assert(out0 + data@.take(j as int) + seq![data@[j as int]]
                            =~= out0 + data@.take(j as int + 1));
                    }
                    j = j + 1;
                }
                proof {
                    assert(data@.take(data@.len() as int) =~= data@);
                    assert(out0 + data@ + body_bytes(events@.skip(i as int + 1))
                        =~= out0 + (data@ + body_bytes(events@.skip(i as int + 1))));
                }
            }
            None => {
                proof {
                    assert(events@.skip(i as int)[0] == events@[i as int]);
                    assert(body_bytes(events@.skip(i as int)) =~= Seq::<u8>::empty());
                    assert(out@ + Seq::<u8>::empty() =~= out@);
                }
                return out;
            }
        }
        i = i + 1;
    }
    proof {
        assert(events@.skip(events@.len() as int) =~= Seq::<StreamEvent>::empty());
        assert(out@ + Seq::<u8>::empty() =~= out@);
    }
    out
}

} // verus!
