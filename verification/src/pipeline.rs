use vstd::prelude::*;
use crate::channel::OutputChannel;
use crate::errors::RelayOutcome;
use crate::errors::ThreadError;
use crate::message::OutputMessage;

verus! {

/// The lines of `entries` whose tag equals `from_first`, in order. The tags
/// record, position by position, which relay a line came from; projecting by
/// tag recovers one source's own stream out of the interleaving.
pub open spec fn tagged_project(entries: Seq<Seq<char>>, tags: Seq<bool>, from_first: bool) -> Seq<
    Seq<char>,
>
    recommends
        entries.len() == tags.len(),
    decreases entries.len(),
{
    if entries.len() == 0 {
        Seq::<Seq<char>>::empty()
    } else {
        let rest = tagged_project(entries.drop_last(), tags.take(entries.len() - 1), from_first);
        if tags[entries.len() - 1] == from_first {
            rest.push(entries.last())
        } else {
            rest
        }
    }
}

/// Appending one tagged line extends exactly the projection of its own tag
/// and leaves the other projection unchanged.
pub proof fn lemma_tagged_project_push(
    entries: Seq<Seq<char>>,
    tags: Seq<bool>,
    line: Seq<char>,
    tag: bool,
    from_first: bool,
)
    requires
        entries.len() == tags.len(),
    ensures
        tagged_project(entries.push(line), tags.push(tag), from_first) == if tag == from_first {
            tagged_project(entries, tags, from_first).push(line)
        } else {
            tagged_project(entries, tags, from_first)
        },
{
    let grown = entries.push(line);
    let grown_tags = tags.push(tag);
    assert(grown.drop_last() =~= entries);
    assert(grown_tags.take(grown.len() - 1) =~= tags);
    assert(grown.last() == line);
    assert(grown_tags[grown.len() - 1] == tag);
}

/// The two projections partition the entries: their lengths add up to the
/// whole, so no line is lost and none is counted twice.
pub proof fn lemma_tagged_project_len(entries: Seq<Seq<char>>, tags: Seq<bool>)
    requires
        entries.len() == tags.len(),
    ensures
        tagged_project(entries, tags, true).len() + tagged_project(entries, tags, false).len()
            == entries.len(),
    decreases entries.len(),
{
    if entries.len() > 0 {
        lemma_tagged_project_len(entries.drop_last(), tags.take(entries.len() - 1));
    }
}

/// Projection looks only at the sequences themselves, so equal inputs give
/// equal projections even when they were put together differently.
pub proof fn lemma_tagged_project_congruence(
    entries: Seq<Seq<char>>,
    tags: Seq<bool>,
    other_entries: Seq<Seq<char>>,
    other_tags: Seq<bool>,
    from_first: bool,
)
    requires
        entries =~= other_entries,
        tags =~= other_tags,
    ensures
        tagged_project(entries, tags, from_first) == tagged_project(
            other_entries,
            other_tags,
            from_first,
        ),
{
}

/// The status of one relay task: still moving lines, ended with its source
/// closed, or ended on the source's read failure.
#[derive(Clone, Copy, Debug, PartialEq, Eq, Structural)]
pub enum RelayStatus {
    Running,
    Done,
    Failed,
}

/// One fan-in relay: the lines its source will still produce in order, the
/// read failure the source will report after them (if any), and a ghost
/// record of every line it has already forwarded into the channel.
pub struct Relay {
    remaining: Vec<OutputMessage>,
    read_error: Option<String>,
    status: RelayStatus,
    forwarded: Ghost<Seq<Seq<char>>>,
}

impl Relay {
    /// The lines this relay has already forwarded, oldest first.
    pub closed spec fn forwarded_lines(&self) -> Seq<Seq<char>> {
        self.forwarded@
    }

    /// The lines the source has not yet handed over, in production order.
    pub closed spec fn remaining_lines(&self) -> Seq<Seq<char>> {
        self.remaining@.map_values(|m: OutputMessage| m@)
    }

    /// The whole stream this relay's source produces, in order.
    pub open spec fn stream(&self) -> Seq<Seq<char>> {
        self.forwarded_lines() + self.remaining_lines()
    }

    /// How many lines are still to be forwarded.
    pub open spec fn remaining_len(&self) -> int {
        self.stream().len() - self.forwarded_lines().len()
    }

    pub closed spec fn spec_status(&self) -> RelayStatus {
        self.status
    }

    /// Whether the source ends with a read failure instead of closing.
    pub closed spec fn fails(&self) -> bool {
        self.read_error is Some
    }

    /// The text of the source's read failure.
    pub closed spec fn error_text(&self) -> Seq<char> {
        self.read_error->0@
    }

    /// Well-formedness: a relay leaves the running state only once its
    /// source is exhausted, and its terminal state tells the truth about
    /// whether the source failed.
    pub open spec fn inv(&self) -> bool {
        &&& !(self.spec_status() is Running) ==> self.remaining_lines().len() == 0
        &&& self.spec_status() is Done ==> !self.fails()
        &&& self.spec_status() is Failed ==> self.fails()
    }

    /// A fresh relay for a source that will produce `lines` and then either
    /// close or report `read_error`.
    pub fn new(lines: Vec<OutputMessage>, read_error: Option<String>) -> (relay: Relay)
        ensures
            relay.inv(),
            relay.spec_status() is Running,
            relay.forwarded_lines() == Seq::<Seq<char>>::empty(),
            relay.stream() == lines@.map_values(|m: OutputMessage| m@),
            relay.fails() <==> read_error is Some,
            read_error is Some ==> relay.error_text() == read_error->0@,
    {
        let relay = Relay {
            remaining: lines,
            read_error,
            status: RelayStatus::Running,
            forwarded: Ghost(Seq::<Seq<char>>::empty()),
        };
        proof {
            assert(relay.stream() =~= relay.remaining_lines());
        }
        relay
    }

    /// The terminal outcome of this relay task, consuming it: a closed
    /// source finished normally, a failed one carries the source's own
    /// I/O error.
    pub fn into_outcome(self) -> (r: RelayOutcome)
        requires
            !(self.spec_status() is Running),
            self.inv(),
        ensures
            self.spec_status() is Done ==> r is Finished,
            self.spec_status() is Failed ==> (r matches RelayOutcome::Failed(t) && (
            t matches ThreadError::IoError(m) && m@ == self.error_text())),
    {
        match self.status {
            RelayStatus::Failed => match self.read_error {
                Some(message) => RelayOutcome::Failed(ThreadError::IoError(message)),
                // a failed relay always carries its error; this arm is never reached
                None => RelayOutcome::Finished,
            },
            _ => RelayOutcome::Finished,
        }
    }
}

/// Which unit of the pipeline moves next. A schedule of turns stands for
/// one possible interleaving of the two concurrent relays and the
/// aggregator; every property below holds for every schedule.
#[derive(Clone, Copy, Debug, PartialEq, Eq, Structural)]
pub enum Turn {
    RelayA,
    RelayB,
    Aggregate,
}

/// The whole fan-in pipeline: two independent relays feeding one bounded
/// channel, and the aggregator draining that channel into the sink, one
/// line per sink entry. Ghost origin tags record, for every line in the
/// channel and in the sink, which relay enqueued it; they carry the
/// per-source ordering argument and are erased at run time.
pub struct Pipeline {
    pub relay_a: Relay,
    pub relay_b: Relay,
    pub channel: OutputChannel,
    pub channel_tags: Ghost<Seq<bool>>,
    pub sink: Vec<String>,
    pub sink_tags: Ghost<Seq<bool>>,
}

impl Pipeline {
    /// The full stream the first source produces, in order.
    pub open spec fn stream_a(&self) -> Seq<Seq<char>> {
        self.relay_a.stream()
    }

    /// The full stream the second source produces, in order.
    pub open spec fn stream_b(&self) -> Seq<Seq<char>> {
        self.relay_b.stream()
    }

    pub open spec fn forwarded_a(&self) -> Seq<Seq<char>> {
        self.relay_a.forwarded_lines()
    }

    pub open spec fn forwarded_b(&self) -> Seq<Seq<char>> {
        self.relay_b.forwarded_lines()
    }

    pub open spec fn remaining_a(&self) -> int {
        self.relay_a.remaining_len()
    }

    pub open spec fn remaining_b(&self) -> int {
        self.relay_b.remaining_len()
    }

    pub open spec fn status_a(&self) -> RelayStatus {
        self.relay_a.spec_status()
    }

    pub open spec fn status_b(&self) -> RelayStatus {
        self.relay_b.spec_status()
    }

    pub open spec fn fails_a(&self) -> bool {
        self.relay_a.fails()
    }

    pub open spec fn fails_b(&self) -> bool {
        self.relay_b.fails()
    }

    pub open spec fn error_a(&self) -> Seq<char> {
        self.relay_a.error_text()
    }

    pub open spec fn error_b(&self) -> Seq<char> {
        self.relay_b.error_text()
    }

    /// The lines written to the sink so far, oldest first.
    pub open spec fn sink_lines(&self) -> Seq<Seq<char>> {
        self.sink@.map_values(|s: String| s@)
    }

    /// For each sink line, whether it came from the first source.
    pub open spec fn sink_origin(&self) -> Seq<bool> {
        self.sink_tags@
    }

    pub open spec fn channel_lines(&self) -> Seq<Seq<char>> {
        self.channel.contents()
    }

    pub open spec fn channel_origin(&self) -> Seq<bool> {
        self.channel_tags@
    }

    pub open spec fn channel_cap(&self) -> nat {
        self.channel.cap()
    }

    /// Every line that has left a source, in arrival order: first those
    /// already written to the sink, then those still queued.
    pub open spec fn in_flight(&self) -> Seq<Seq<char>> {
        self.sink_lines() + self.channel_lines()
    }

    pub open spec fn in_flight_origin(&self) -> Seq<bool> {
        self.sink_origin() + self.channel_origin()
    }

    /// The pipeline's invariant: the channel respects its bound, each relay
    /// is well formed, every queued or written line carries an origin tag,
    /// and projecting the in-flight lines by origin gives exactly what each
    /// relay has forwarded, in that relay's own order.
    pub open spec fn wf(&self) -> bool {
        &&& self.channel.inv()
        &&& self.relay_a.inv()
        &&& self.relay_b.inv()
        &&& self.channel_origin().len() == self.channel_lines().len()
        &&& self.sink_origin().len() == self.sink_lines().len()
        &&& tagged_project(self.in_flight(), self.in_flight_origin(), true) == self.forwarded_a()
        &&& tagged_project(self.in_flight(), self.in_flight_origin(), false) == self.forwarded_b()
    }

    /// The run is complete: both relays have terminated and the channel is
    /// drained.
    pub open spec fn complete(&self) -> bool {
        &&& !(self.status_a() is Running)
        &&& !(self.status_b() is Running)
        &&& self.channel_lines().len() == 0
    }

    /// Whether a scheduled turn can make progress: a relay moves while it
    /// runs, unless it has a line to enqueue and the channel is full — the
    /// backpressure point, where the relay suspends instead; the aggregator
    /// moves while the channel holds a line.
    pub open spec fn turn_enabled(&self, turn: Turn) -> bool {
        match turn {
            Turn::RelayA => self.status_a() is Running && (self.remaining_a() == 0
                || self.channel_lines().len() < self.channel_cap()),
            Turn::RelayB => self.status_b() is Running && (self.remaining_b() == 0
                || self.channel_lines().len() < self.channel_cap()),
            Turn::Aggregate => self.channel_lines().len() > 0,
        }
    }

    /// How much work is left; every enabled turn strictly decreases it.
    pub open spec fn measure(&self) -> int {
        2 * (self.remaining_a() + self.remaining_b()) + self.channel_lines().len() + (
        if self.status_a() is Running {
            1int
        } else {
            0int
        }) + (if self.status_b() is Running {
            1int
        } else {
            0int
        })
    }

    /// A fresh pipeline over two sources: the lines each will produce, the
    /// read failure each will report after them (if any), and the channel
    /// capacity.
    pub fn new(
        a_lines: Vec<OutputMessage>,
        a_error: Option<String>,
        b_lines: Vec<OutputMessage>,
        b_error: Option<String>,
        capacity: usize,
    ) -> (p: Pipeline)
        requires
            capacity >= 1,
        ensures
            p.wf(),
            p.stream_a() == a_lines@.map_values(|m: OutputMessage| m@),
            p.stream_b() == b_lines@.map_values(|m: OutputMessage| m@),
            p.sink_lines() == Seq::<Seq<char>>::empty(),
            p.sink_origin() == Seq::<bool>::empty(),
            p.status_a() is Running,
            p.status_b() is Running,
            p.fails_a() <==> a_error is Some,
            p.fails_b() <==> b_error is Some,
            a_error is Some ==> p.error_a() == a_error->0@,
            b_error is Some ==> p.error_b() == b_error->0@,
            p.channel_cap() == capacity as nat,
    {
        let p = Pipeline {
            relay_a: Relay::new(a_lines, a_error),
            relay_b: Relay::new(b_lines, b_error),
            channel: OutputChannel::new(capacity),
            channel_tags: Ghost(Seq::<bool>::empty()),
            sink: Vec::new(),
            sink_tags: Ghost(Seq::<bool>::empty()),
        };
        proof {
            assert(p.sink_lines() =~= Seq::<Seq<char>>::empty());
            assert(p.in_flight() =~= Seq::<Seq<char>>::empty());
            assert(p.in_flight_origin() =~= Seq::<bool>::empty());
        }
        p
    }

    pub fn is_complete(&self) -> (r: bool)
        ensures
            r == self.complete(),
    {
        let a_done = match self.relay_a.status {
            RelayStatus::Running => false,
            _ => true,
        };
        let b_done = match self.relay_b.status {
            RelayStatus::Running => false,
            _ => true,
        };
        a_done && b_done && self.channel.len() == 0
    }

    /// One scheduling turn. The scheduled unit moves one step if it can:
    /// a running relay enqueues its next line — unless the channel is full,
    /// when it suspends untouched — or records its terminal state once its
    /// source is exhausted; the aggregator moves the oldest queued line to
    /// the sink. Everything else is left exactly as it was.
    pub fn step(&mut self, turn: Turn)
        requires
            old(self).wf(),
        ensures
            final(self).wf(),
            final(self).channel_cap() == old(self).channel_cap(),
            final(self).stream_a() == old(self).stream_a(),
            final(self).stream_b() == old(self).stream_b(),
            final(self).fails_a() == old(self).fails_a(),
            final(self).fails_b() == old(self).fails_b(),
            final(self).error_a() == old(self).error_a(),
            final(self).error_b() == old(self).error_b(),
            final(self).measure() <= old(self).measure(),
            old(self).turn_enabled(turn) ==> final(self).measure() < old(self).measure(),
            !old(self).turn_enabled(turn) ==> {
                &&& final(self).status_a() == old(self).status_a()
                &&& final(self).status_b() == old(self).status_b()
                &&& final(self).forwarded_a() == old(self).forwarded_a()
                &&& final(self).forwarded_b() == old(self).forwarded_b()
                &&& final(self).sink_lines() == old(self).sink_lines()
                &&& final(self).channel_lines() == old(self).channel_lines()
            },
            !(old(self).status_a() is Running) ==> final(self).status_a() == old(self).status_a(),
            !(old(self).status_b() is Running) ==> final(self).status_b() == old(self).status_b(),
            turn is RelayA || turn is RelayB ==> final(self).sink_lines() == old(self).sink_lines()
                && final(self).channel_lines().len() >= old(self).channel_lines().len(),
            turn is RelayA ==> final(self).status_b() == old(self).status_b() && final(self).forwarded_b() == old(self).forwarded_b(),
            turn is RelayB ==> final(self).status_a() == old(self).status_a() && final(self).forwarded_a() == old(self).forwarded_a(),
            turn is Aggregate ==> final(self).status_a() == old(self).status_a() && final(self).status_b() == old(self).status_b() && final(self).forwarded_a() == old(
                self,
            ).forwarded_a() && final(self).forwarded_b() == old(self).forwarded_b(),
            turn is Aggregate && old(self).channel_lines().len() > 0 ==> final(self).sink_lines()
                == old(self).sink_lines().push(old(self).channel_lines()[0]) && final(self).channel_lines() == old(self).channel_lines().drop_first(),
            turn is Aggregate && old(self).channel_lines().len() == 0 ==> final(self).sink_lines()
                == old(self).sink_lines() && final(self).channel_lines() == old(
                self,
            ).channel_lines(),
            turn is RelayA && old(self).status_a() is Running && old(self).remaining_a() == 0
                ==> {
                &&& (final(self).status_a() is Done <==> !old(self).fails_a())
                &&& (final(self).status_a() is Failed <==> old(self).fails_a())
                &&& final(self).forwarded_a() == old(self).forwarded_a()
                &&& final(self).channel_lines() == old(self).channel_lines()
            },
            turn is RelayB && old(self).status_b() is Running && old(self).remaining_b() == 0
                ==> {
                &&& (final(self).status_b() is Done <==> !old(self).fails_b())
                &&& (final(self).status_b() is Failed <==> old(self).fails_b())
                &&& final(self).forwarded_b() == old(self).forwarded_b()
                &&& final(self).channel_lines() == old(self).channel_lines()
            },
            turn is RelayA && old(self).status_a() is Running && old(self).remaining_a() > 0 && old(
                self,
            ).channel_lines().len() < old(self).channel_cap() ==> {
                &&& final(self).forwarded_a() == old(self).forwarded_a().push(
                    old(self).stream_a()[old(self).forwarded_a().len() as int],
                )
                &&& final(self).channel_lines() == old(self).channel_lines().push(
                    old(self).stream_a()[old(self).forwarded_a().len() as int],
                )
                &&& final(self).status_a() is Running
            },
            turn is RelayB && old(self).status_b() is Running && old(self).remaining_b() > 0 && old(
                self,
            ).channel_lines().len() < old(self).channel_cap() ==> {
                &&& final(self).forwarded_b() == old(self).forwarded_b().push(
                    old(self).stream_b()[old(self).forwarded_b().len() as int],
                )
                &&& final(self).channel_lines() == old(self).channel_lines().push(
                    old(self).stream_b()[old(self).forwarded_b().len() as int],
                )
                &&& final(self).status_b() is Running
            },
    {
        match turn {
            Turn::RelayA => {
                match self.relay_a.status {
                    RelayStatus::Running => {
                        if self.relay_a.remaining.len() > 0 {
                            if self.channel.len() < self.channel.capacity() {
                                let message = self.relay_a.remaining.remove(0);
                                let ghost line = message@;
                                proof {
                                    assert(self.relay_a.remaining_lines() =~= old(
                                        self,
                                    ).relay_a.remaining_lines().drop_first());
                                    assert(line == old(self).relay_a.remaining_lines()[0]);
                                }
                                match self.channel.try_send(message) {
                                    Ok(_) => {
                                        self.relay_a.forwarded = Ghost(
                                            self.relay_a.forwarded@.push(line),
                                        );
                                        self.channel_tags = Ghost(self.channel_tags@.push(true));
                                        proof {
                                            assert(self.relay_a.stream() =~= old(
                                                self,
                                            ).relay_a.stream());
                                            assert(self.in_flight() =~= old(self).in_flight().push(
                                                line,
                                            ));
                                            assert(self.in_flight_origin() =~= old(
                                                self,
                                            ).in_flight_origin().push(true));
                                            lemma_tagged_project_push(
                                                old(self).in_flight(),
                                                old(self).in_flight_origin(),
                                                line,
                                                true,
                                                true,
                                            );
                                            lemma_tagged_project_push(
                                                old(self).in_flight(),
                                                old(self).in_flight_origin(),
                                                line,
                                                true,
                                                false,
                                            );
                                        }
                                    },
                                    Err(returned) => {
                                        // ruled out by the capacity check above
                                        self.relay_a.remaining.insert(0, returned);
                                    },
                                }
                            }
                            // else: the channel is full; the relay suspends
                        } else {
                            self.relay_a.status = match self.relay_a.read_error {
                                Some(_) => RelayStatus::Failed,
                                None => RelayStatus::Done,
                            };
                        }
                    },
                    _ => {},
                }
            },
            Turn::RelayB => {
                match self.relay_b.status {
                    RelayStatus::Running => {
                        if self.relay_b.remaining.len() > 0 {
                            if self.channel.len() < self.channel.capacity() {
                                let message = self.relay_b.remaining.remove(0);
                                let ghost line = message@;
                                proof {
                                    assert(self.relay_b.remaining_lines() =~= old(
                                        self,
                                    ).relay_b.remaining_lines().drop_first());
                                    assert(line == old(self).relay_b.remaining_lines()[0]);
                                }
                                match self.channel.try_send(message) {
                                    Ok(_) => {
                                        self.relay_b.forwarded = Ghost(
                                            self.relay_b.forwarded@.push(line),
                                        );
                                        self.channel_tags = Ghost(self.channel_tags@.push(false));
                                        proof {
                                            assert(self.relay_b.stream() =~= old(
                                                self,
                                            ).relay_b.stream());
                                            assert(self.in_flight() =~= old(self).in_flight().push(
                                                line,
                                            ));
                                            assert(self.in_flight_origin() =~= old(
                                                self,
                                            ).in_flight_origin().push(false));
                                            lemma_tagged_project_push(
                                                old(self).in_flight(),
                                                old(self).in_flight_origin(),
                                                line,
                                                false,
                                                true,
                                            );
                                            lemma_tagged_project_push(
                                                old(self).in_flight(),
                                                old(self).in_flight_origin(),
                                                line,
                                                false,
                                                false,
                                            );
                                        }
                                    },
                                    Err(returned) => {
                                        // ruled out by the capacity check above
                                        self.relay_b.remaining.insert(0, returned);
                                    },
                                }
                            }
                            // else: the channel is full; the relay suspends
                        } else {
                            self.relay_b.status = match self.relay_b.read_error {
                                Some(_) => RelayStatus::Failed,
                                None => RelayStatus::Done,
                            };
                        }
                    },
                    _ => {},
                }
            },
            Turn::Aggregate => {
                let received = self.channel.recv();
                match received {
                    Some(message) => {
                        let ghost tag = self.channel_tags@[0];
                        self.sink.push(message.into_text());
                        self.sink_tags = Ghost(self.sink_tags@.push(tag));
                        self.channel_tags = Ghost(self.channel_tags@.drop_first());
                        proof {
                            assert(self.sink_lines() =~= old(self).sink_lines().push(
                                old(self).channel_lines()[0],
                            ));
                            assert(self.in_flight() =~= old(self).in_flight());
                            assert(self.in_flight_origin() =~= old(self).in_flight_origin());
                            lemma_tagged_project_congruence(
                                self.in_flight(),
                                self.in_flight_origin(),
                                old(self).in_flight(),
                                old(self).in_flight_origin(),
                                true,
                            );
                            lemma_tagged_project_congruence(
                                self.in_flight(),
                                self.in_flight_origin(),
                                old(self).in_flight(),
                                old(self).in_flight_origin(),
                                false,
                            );
                        }
                    },
                    None => {},
                }
            },
        }
    }

    /// Drives the pipeline to completion: first through the given schedule,
    /// standing for an arbitrary interleaving of the three concurrent
    /// units, then round robin until both relays have terminated and the
    /// channel is drained. The sources, their failure modes and the channel
    /// bound are exactly what they were.
    pub fn run(&mut self, schedule: &Vec<Turn>)
        requires
            old(self).wf(),
        ensures
            final(self).wf(),
            final(self).complete(),
            final(self).stream_a() == old(self).stream_a(),
            final(self).stream_b() == old(self).stream_b(),
            final(self).fails_a() == old(self).fails_a(),
            final(self).fails_b() == old(self).fails_b(),
            final(self).error_a() == old(self).error_a(),
            final(self).error_b() == old(self).error_b(),
            final(self).channel_cap() == old(self).channel_cap(),
    {
        let mut i: usize = 0;
        while i < schedule.len()
            invariant
                i <= schedule.len(),
                self.wf(),
                self.stream_a() == old(self).stream_a(),
                self.stream_b() == old(self).stream_b(),
                self.fails_a() == old(self).fails_a(),
                self.fails_b() == old(self).fails_b(),
                self.error_a() == old(self).error_a(),
                self.error_b() == old(self).error_b(),
                self.channel_cap() == old(self).channel_cap(),
            decreases schedule.len() - i,
        {
            let turn = schedule[i];
            self.step(turn);
            i = i + 1;
        }
        while !self.is_complete()
            invariant
                self.wf(),
                self.stream_a() == old(self).stream_a(),
                self.stream_b() == old(self).stream_b(),
                self.fails_a() == old(self).fails_a(),
                self.fails_b() == old(self).fails_b(),
                self.error_a() == old(self).error_a(),
                self.error_b() == old(self).error_b(),
                self.channel_cap() == old(self).channel_cap(),
            decreases self.measure(),
        {
            let ghost s0 = *self;
            self.step(Turn::RelayA);
            let ghost s1 = *self;
            self.step(Turn::RelayB);
            let ghost s2 = *self;
            self.step(Turn::Aggregate);
            proof {
                if s0.channel_lines().len() > 0 {
                    assert(s2.turn_enabled(Turn::Aggregate));
                } else if s0.status_a() is Running {
                    assert(s0.turn_enabled(Turn::RelayA));
                } else if s0.status_b() is Running {
                    assert(!s0.turn_enabled(Turn::RelayA));
                    assert(s1.turn_enabled(Turn::RelayB));
                } else {
                    assert(s0.complete());
                }
            }
        }
    }

    /// The run's reported result, consuming the completed pipeline: the
    /// aggregator's own failure (if any) joined with both relays' terminal
    /// outcomes, first error first, as the orchestration reports it.
    pub fn into_result(self, aggregator: Option<crate::errors::RunMinecraftError>) -> (r: Result<
        (),
        crate::errors::RunMinecraftError,
    >)
        requires
            self.wf(),
            self.complete(),
        ensures
            r is Ok <==> (aggregator is None && self.status_a() is Done && self.status_b()
                is Done),
            aggregator is Some ==> r == Result::<(), crate::errors::RunMinecraftError>::Err(
                aggregator->0,
            ),
            aggregator is None && self.status_a() is Failed ==> (r matches Err(e)
                && e matches crate::errors::RunMinecraftError::ThreadError(t) && (
            t matches ThreadError::IoError(m) && m@ == self.error_a())),
            aggregator is None && self.status_a() is Done && self.status_b() is Failed ==> (
            r matches Err(e) && e matches crate::errors::RunMinecraftError::ThreadError(t) && (
            t matches ThreadError::IoError(m) && m@ == self.error_b())),
    {
        let a_outcome = self.relay_a.into_outcome();
        let b_outcome = self.relay_b.into_outcome();
        crate::errors::join_outcomes(aggregator, a_outcome, b_outcome)
    }
}

/// The exact character stream the aggregator writes for these lines: each
/// line followed by exactly one line terminator.
pub open spec fn rendered(lines: Seq<Seq<char>>) -> Seq<char>
    decreases lines.len(),
{
    if lines.len() == 0 {
        Seq::<char>::empty()
    } else {
        rendered(lines.drop_last()) + lines.last() + seq!['\n']
    }
}

/// Renders sink lines exactly as the aggregator writes them to the
/// destination: every line terminated by one line feed.
pub fn render_lines(lines: &Vec<String>) -> (out: String)
    ensures
        out@ == rendered(lines@.map_values(|s: String| s@)),
{
    let mut out = String::new();
    proof {
        assert(lines@.map_values(|s: String| s@).take(0) =~= Seq::<Seq<char>>::empty());
    }
    let mut i: usize = 0;
    while i < lines.len()
        invariant
            i <= lines.len(),
            out@ == rendered(lines@.map_values(|s: String| s@).take(i as int)),
        decreases lines.len() - i,
    {
        let ghost view_lines = lines@.map_values(|s: String| s@);
        let line: &String = &lines[i];
        out.append(line.as_str());
        out.append("\n");
        i = i + 1;
        proof {
            reveal_strlit("\n");
            assert("\n"@ =~= seq!['\n']);
            assert(view_lines.take(i as int).drop_last() =~= view_lines.take(i - 1));
            assert(view_lines.take(i as int).last() == view_lines[i - 1]);
        }
    }
    proof {
        assert(lines@.map_values(|s: String| s@).take(lines@.len() as int) =~= lines@.map_values(
            |s: String| s@,
        ));
    }
    out
}

/// Ordering, no loss, no duplication: in any well-formed, completed
/// pipeline state — reached under any schedule whatsoever — the sink holds
/// each source's stream exactly and in that source's own order, and
/// nothing else: M lines from one source and N from the other make exactly
/// M + N sink lines, each appearing exactly once.
pub proof fn lemma_complete_sink(p: &Pipeline)
    requires
        p.wf(),
        p.complete(),
    ensures
        tagged_project(p.sink_lines(), p.sink_origin(), true) == p.stream_a(),
        tagged_project(p.sink_lines(), p.sink_origin(), false) == p.stream_b(),
        p.sink_lines().len() == p.stream_a().len() + p.stream_b().len(),
{
    assert(p.in_flight() =~= p.sink_lines());
    assert(p.in_flight_origin() =~= p.sink_origin());
    lemma_tagged_project_congruence(
        p.sink_lines(),
        p.sink_origin(),
        p.in_flight(),
        p.in_flight_origin(),
        true,
    );
    lemma_tagged_project_congruence(
        p.sink_lines(),
        p.sink_origin(),
        p.in_flight(),
        p.in_flight_origin(),
        false,
    );
    assert(p.stream_a() =~= p.forwarded_a());
    assert(p.stream_b() =~= p.forwarded_b());
    lemma_tagged_project_len(p.sink_lines(), p.sink_origin());
}

/// Backpressure: whatever the schedule and however fast a source produces,
/// a well-formed pipeline never queues more lines than the channel's fixed
/// capacity — a relay that cannot enqueue suspends, it does not buffer.
pub proof fn lemma_backpressure(p: &Pipeline)
    requires
        p.wf(),
    ensures
        p.channel_lines().len() <= p.channel_cap(),
{
}

/// Failure propagation: when the first source reported a read failure
/// after producing its lines, a completed run has still delivered every
/// one of those lines to the sink, in order — none is lost — and the
/// relay's terminal state carries the failure.
pub proof fn lemma_failure_propagation(p: &Pipeline)
    requires
        p.wf(),
        p.complete(),
        p.status_a() is Failed,
    ensures
        tagged_project(p.sink_lines(), p.sink_origin(), true) == p.stream_a(),
        p.fails_a(),
{
    lemma_complete_sink(p);
}

} // verus!
