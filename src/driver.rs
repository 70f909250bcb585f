use vstd::prelude::*;

use crate::format::{
    answer_line, answer_text, not_authoritative_line, not_authoritative_text, querying_line,
    querying_text, unable_line, unable_text, Ipv4, Line, RecordData, Style,
};

verus! {

/// Columns by which each descent indents its lines.
pub const INDENT_STEP: usize = 4;

/// The record type of an address query.
pub const TYPE_A: u16 = 1;

/// The Internet class.
pub const CLASS_IN: u16 = 1;

/// The question sent, unchanged, to every server of the walk.
#[derive(Debug)]
pub struct QueryTemplate {
    /// Fully qualified owner name.
    pub name: String,
    pub record_type: u16,
    pub class: u16,
    pub id: u16,
    pub recursion_desired: bool,
}

impl QueryTemplate {
    /// An address query in class IN for `name`, with recursion not desired.
    pub open spec fn wf(&self) -> bool {
        &&& self.record_type == TYPE_A
        &&& self.class == CLASS_IN
        &&& !self.recursion_desired
    }

    /// The iterative address query for `name` with transaction id `id`.
    pub fn new(name: String, id: u16) -> (r: QueryTemplate)
        ensures
            r.wf(),
            r.name == name,
            r.id == id,
    {
        QueryTemplate { name, record_type: TYPE_A, class: CLASS_IN, id, recursion_desired: false }
    }

    /// A copy of the template, field for field.
    pub fn duplicate(&self) -> (r: QueryTemplate)
        ensures
            r == *self,
    {
        QueryTemplate {
            name: self.name.clone(),
            record_type: self.record_type,
            class: self.class,
            id: self.id,
            recursion_desired: self.recursion_desired,
        }
    }
}

/// The address of a server to query: the starting one may be IPv6, those
/// reached through a referral are IPv4.
#[derive(Clone, Copy, Debug)]
pub enum ServerAddr {
    V4(Ipv4),
    V6([u16; 8]),
}

/// One reply, as the walk reads it.
#[derive(Debug)]
pub struct Response {
    /// The owner name of the question the reply echoes.
    pub owner: String,
    /// The answer section, in the server's order.
    pub answers: Vec<RecordData>,
    /// The authority section, in the server's order.
    pub authority: Vec<RecordData>,
    /// A structural dump of the whole reply, for diagnostics.
    pub dump: String,
}

/// The three kinds of reply.
#[derive(Clone, Copy, Debug, PartialEq, Eq, Structural)]
pub enum Outcome {
    /// No answers, some authority records.
    Referral,
    /// Neither answers nor authority records.
    DeadEnd,
    /// At least one answer; authority records are ignored.
    Answer,
}

/// The kind of a reply with `answers` answer records and `authority`
/// authority records.
pub open spec fn outcome_of(answers: nat, authority: nat) -> Outcome {
    if answers > 0 {
        Outcome::Answer
    } else if authority > 0 {
        Outcome::Referral
    } else {
        Outcome::DeadEnd
    }
}

/// Classifies a reply by its answer and authority counts.
pub fn classify(resp: &Response) -> (r: Outcome)
    ensures
        r == outcome_of(resp.answers@.len(), resp.authority@.len()),
{
    if resp.answers.len() > 0 {
        Outcome::Answer
    } else if resp.authority.len() > 0 {
        Outcome::Referral
    } else {
        Outcome::DeadEnd
    }
}

/// Work left in the depth-first walk; the last frame of the stack is done
/// first.
#[derive(Debug)]
pub enum Frame {
    /// Query the server at `address`; its lines go at `indent`.
    Hop { address: ServerAddr, indent: usize },
    /// Resolve the nameserver `ns_name` of a referral answered at `indent`.
    Expand { ns_name: String, indent: usize },
    /// Announce `ns_name` at `address` at `indent`, then query it one step
    /// deeper.
    Visit { ns_name: String, address: Ipv4, indent: usize },
}

/// What the walk waits for, if anything.
#[derive(Debug)]
pub enum Waiting {
    Nothing,
    /// The reply of the server queried last, whose lines go at `indent`.
    Reply { indent: usize },
    /// The addresses of `ns_name`, from a referral answered at `indent`.
    Addresses { ns_name: String, indent: usize },
}

/// The outside work that the walk asks for next.
#[derive(Debug)]
pub enum Action {
    /// Send `query` to port 53 of `address` and hand back its reply.
    Send { address: ServerAddr, query: QueryTemplate },
    /// Look up the IPv4 addresses of `ns_name` and hand them back.
    Lookup { ns_name: String },
    /// The walk is complete.
    Finished,
}

/// Why a branch of the walk, and so the walk, stops early.
#[derive(Clone, Copy, Debug, PartialEq, Eq, Structural)]
pub enum WalkError {
    /// The auxiliary resolver gave no address for a nameserver.
    NoAddresses,
    /// The walk is so deep that its indent would not fit in a `usize`.
    TooDeep,
}

/// The frames that a referral answered at `indent` pushes, bottom first:
/// one `Expand` per NS record, so that the first NS record ends on top.
pub open spec fn referral_frames(auth: Seq<RecordData>, indent: usize) -> Seq<Frame>
    decreases auth.len(),
{
    if auth.len() == 0 {
        Seq::empty()
    } else {
        let rest = referral_frames(auth.drop_first(), indent);
        match auth[0] {
            RecordData::Ns(name) => rest.push(Frame::Expand { ns_name: name, indent }),
            _ => rest,
        }
    }
}

/// The frames that the addresses of `ns_name` push, bottom first: one
/// `Visit` per address, so that the first address ends on top.
pub open spec fn visit_frames(ns_name: String, addrs: Seq<Ipv4>, indent: usize) -> Seq<Frame>
    decreases addrs.len(),
{
    if addrs.len() == 0 {
        Seq::empty()
    } else {
        visit_frames(ns_name, addrs.drop_first(), indent).push(
            Frame::Visit { ns_name, address: addrs[0], indent },
        )
    }
}

/// The nameserver names of the NS records of an authority section, in the
/// server's order.
pub open spec fn ns_names(auth: Seq<RecordData>) -> Seq<String>
    decreases auth.len(),
{
    if auth.len() == 0 {
        Seq::empty()
    } else {
        let rest = ns_names(auth.drop_first());
        match auth[0] {
            RecordData::Ns(name) => seq![name] + rest,
            _ => rest,
        }
    }
}

/// A referral queues exactly one expansion per NS record, and the stack
/// hands them out in the order of the authority section: the k-th frame
/// taken is the k-th NS name.
pub proof fn referral_order(auth: Seq<RecordData>, indent: usize)
    ensures
        referral_frames(auth, indent).len() == ns_names(auth).len(),
        forall|k: int|
            0 <= k < ns_names(auth).len() ==> #[trigger] referral_frames(auth, indent)[referral_frames(
                auth,
                indent,
            ).len() - 1 - k] == (Frame::Expand { ns_name: ns_names(auth)[k], indent }),
    decreases auth.len(),
{
    if auth.len() > 0 {
        let rest = auth.drop_first();
        referral_order(rest, indent);
        let f = referral_frames(auth, indent);
        let g = referral_frames(rest, indent);
        let names = ns_names(auth);
        let rest_names = ns_names(rest);
        assert forall|k: int| 0 <= k < names.len() implies #[trigger] f[f.len() - 1 - k] == (
        Frame::Expand { ns_name: names[k], indent }) by {
            match auth[0] {
                RecordData::Ns(name) => {
                    if k > 0 {
                        assert(names[k] == rest_names[k - 1]);
                        assert(f[f.len() - 1 - k] == g[g.len() - 1 - (k - 1)]);
                    }
                },
                _ => {},
            }
        }
    }
}

/// An authority section without NS records queues no descent at all.
pub proof fn no_ns_no_descent(auth: Seq<RecordData>, indent: usize)
    requires
        forall|k: int| 0 <= k < auth.len() ==> !(#[trigger] auth[k] is Ns),
    ensures
        referral_frames(auth, indent).len() == 0,
    decreases auth.len(),
{
    if auth.len() > 0 {
        assert forall|k: int| 0 <= k < auth.drop_first().len() implies !(
        #[trigger] auth.drop_first()[k] is Ns) by {
            assert(auth.drop_first()[k] == auth[k + 1]);
        }
        no_ns_no_descent(auth.drop_first(), indent);
    }
}

/// The addresses of a nameserver queue exactly one visit each, all at the
/// indent of the referral, and the stack hands them out in the resolver's
/// order: the k-th frame taken is the k-th address.
pub proof fn visit_order(ns_name: String, addrs: Seq<Ipv4>, indent: usize)
    ensures
        visit_frames(ns_name, addrs, indent).len() == addrs.len(),
        forall|k: int|
            0 <= k < addrs.len() ==> #[trigger] visit_frames(ns_name, addrs, indent)[addrs.len() - 1
                - k] == (Frame::Visit { ns_name, address: addrs[k], indent }),
    decreases addrs.len(),
{
    if addrs.len() > 0 {
        let rest = addrs.drop_first();
        visit_order(ns_name, rest, indent);
        let f = visit_frames(ns_name, addrs, indent);
        let g = visit_frames(ns_name, rest, indent);
        assert forall|k: int| 0 <= k < addrs.len() implies #[trigger] f[addrs.len() - 1 - k] == (
        Frame::Visit { ns_name, address: addrs[k], indent }) by {
            if k > 0 {
                assert(addrs[k] == rest[k - 1]);
                assert(f[addrs.len() - 1 - k] == g[rest.len() - 1 - (k - 1)]);
            }
        }
    }
}

/// A frame whose indent leaves room for one more descent where it needs it.
pub open spec fn frame_ok(f: Frame) -> bool {
    match f {
        Frame::Visit { indent, .. } => indent <= usize::MAX - INDENT_STEP,
        _ => true,
    }
}

/// The state of an iterative walk down the delegation tree.
#[derive(Debug)]
pub struct Walk {
    /// The question asked at every hop.
    pub query: QueryTemplate,
    /// Pending work, last frame first.
    pub stack: Vec<Frame>,
    /// The outside work in flight, if any.
    pub waiting: Waiting,
}

impl Walk {
    pub open spec fn wf(&self) -> bool {
        &&& self.query.wf()
        &&& forall|k: int| 0 <= k < self.stack@.len() ==> #[trigger] frame_ok(self.stack@[k])
    }

    /// A walk that starts by querying `start` at indent zero.
    pub fn new(query: QueryTemplate, start: ServerAddr) -> (r: Walk)
        requires
            query.wf(),
        ensures
            r.wf(),
            r.query == query,
            r.stack@ == seq![Frame::Hop { address: start, indent: 0 }],
            r.waiting == Waiting::Nothing,
    {
        let mut stack: Vec<Frame> = Vec::new();
        stack.push(Frame::Hop { address: start, indent: 0 });
        Walk { query, stack, waiting: Waiting::Nothing }
    }
    /// Takes the next frame and says what outside work it needs. A `Visit`
    /// frame also gives its "querying" line and sends the query one step
    /// deeper. Nothing may be in flight: one query or lookup at a time.
    pub fn next_action(&mut self) -> (r: (Action, Option<Line>))
        requires
            old(self).wf(),
            old(self).waiting == Waiting::Nothing,
        ensures
            final(self).wf(),
            final(self).query == old(self).query,
            old(self).stack@.len() == 0 ==> {
                &&& r.0 == Action::Finished
                &&& r.1 is None
                &&& final(self).stack@ == old(self).stack@
                &&& final(self).waiting == Waiting::Nothing
            },
            old(self).stack@.len() > 0 ==> final(self).stack@ == old(self).stack@.drop_last(),
            old(self).stack@.len() > 0 ==> match old(self).stack@.last() {
                Frame::Hop { address, indent } => {
                    &&& r.0 == (Action::Send { address, query: old(self).query })
                    &&& r.1 is None
                    &&& final(self).waiting == (Waiting::Reply { indent })
                },
                Frame::Visit { ns_name, address, indent } => {
                    &&& r.0 == (Action::Send {
                        address: ServerAddr::V4(address),
                        query: old(self).query,
                    })
                    &&& r.1 is Some
                    &&& r.1->0.indent == indent
                    &&& r.1->0.style == Style::Progress
                    &&& r.1->0.text@ == querying_text(ns_name@, address)
                    &&& final(self).waiting == (Waiting::Reply { indent: (indent + INDENT_STEP) as usize })
                },
                Frame::Expand { ns_name, indent } => {
                    &&& r.0 == (Action::Lookup { ns_name })
                    &&& r.1 is None
                    &&& final(self).waiting == (Waiting::Addresses { ns_name, indent })
                },
            },
    {
        match self.stack.pop() {
            None => (Action::Finished, None),
            Some(frame) => {
                proof {
                    assert(frame_ok(old(self).stack@[old(self).stack@.len() - 1]));
                }
                match frame {
                    Frame::Hop { address, indent } => {
                        self.waiting = Waiting::Reply { indent };
                        (Action::Send { address, query: self.query.duplicate() }, None)
                    },
                    Frame::Visit { ns_name, address, indent } => {
                        let line = querying_line(indent, &ns_name, address);
                        self.waiting = Waiting::Reply { indent: indent + INDENT_STEP };
                        (
                            Action::Send { address: ServerAddr::V4(address), query: self.query.duplicate() },
                            Some(line),
                        )
                    },
                    Frame::Expand { ns_name, indent } => {
                        self.waiting = Waiting::Addresses { ns_name: ns_name.clone(), indent };
                        (Action::Lookup { ns_name }, None)
                    },
                }
            },
        }
    }
    /// Takes the reply of the server queried last and gives the lines it
    /// yields. An answer gives one line per answer record and ignores the
    /// authority section; a dead end gives one diagnostic line; a referral
    /// gives the "not authoritative" line and queues one expansion per NS
    /// record, in the server's order, and none for other records.
    pub fn on_response(&mut self, resp: &Response) -> (lines: Vec<Line>)
        requires
            old(self).wf(),
            old(self).waiting is Reply,
        ensures
            final(self).wf(),
            final(self).query == old(self).query,
            final(self).waiting == Waiting::Nothing,
            ({
                let indent = old(self).waiting->Reply_indent;
                match outcome_of(resp.answers@.len(), resp.authority@.len()) {
                    Outcome::Answer => {
                        &&& final(self).stack@ == old(self).stack@
                        &&& lines@.len() == resp.answers@.len()
                        &&& forall|k: int|
                            0 <= k < lines@.len() ==> {
                                &&& (#[trigger] lines@[k]).indent == indent
                                &&& lines@[k].style == Style::Answer
                                &&& lines@[k].text@ == answer_text(resp.owner@, resp.answers@[k])
                            }
                    },
                    Outcome::DeadEnd => {
                        &&& final(self).stack@ == old(self).stack@
                        &&& lines@.len() == 1
                        &&& lines@[0].indent == indent
                        &&& lines@[0].style == Style::Failure
                        &&& lines@[0].text@ == unable_text(resp.dump@)
                    },
                    Outcome::Referral => {
                        &&& final(self).stack@ == old(self).stack@ + referral_frames(resp.authority@, indent)
                        &&& lines@.len() == 1
                        &&& lines@[0].indent == indent
                        &&& lines@[0].style == Style::Progress
                        &&& lines@[0].text@ == not_authoritative_text()
                    },
                }
            }),
    {
        let indent = match &self.waiting {
            Waiting::Reply { indent } => *indent,
            _ => 0,
        };
        self.waiting = Waiting::Nothing;
        let mut lines: Vec<Line> = Vec::new();
        match classify(resp) {
            Outcome::Answer => {
                let mut k: usize = 0;
                while k < resp.answers.len()
                    invariant
                        k <= resp.answers@.len(),
                        lines@.len() == k,
                        forall|j: int|
                            0 <= j < k ==> {
                                &&& (#[trigger] lines@[j]).indent == indent
                                &&& lines@[j].style == Style::Answer
                                &&& lines@[j].text@ == answer_text(resp.owner@, resp.answers@[j])
                            },
                    decreases resp.answers@.len() - k,
                {
                    lines.push(answer_line(indent, &resp.owner, &resp.answers[k]));
                    k = k + 1;
                }
            },
            Outcome::DeadEnd => {
                lines.push(unable_line(indent, &resp.dump));
            },
            Outcome::Referral => {
                lines.push(not_authoritative_line(indent));
                let ghost base = self.stack@;
                let n = resp.authority.len();
                let mut k: usize = n;
                while k > 0
                    invariant
                        k <= n,
                        n == resp.authority@.len(),
                        self.query == old(self).query,
                        self.waiting == Waiting::Nothing,
                        self.wf(),
                        base == old(self).stack@,
                        self.stack@ == base + referral_frames(resp.authority@.subrange(k as int, n as int), indent),
                    decreases k,
                {
                    k = k - 1;
                    let ghost prev = self.stack@;
                    proof {
                        assert(resp.authority@.subrange(k as int, n as int).drop_first()
                            =~= resp.authority@.subrange(k + 1, n as int));
                    }
                    match &resp.authority[k] {
                        RecordData::Ns(name) => {
                            self.stack.push(Frame::Expand { ns_name: name.clone(), indent });
                        },
                        _ => {},
                    }
                    proof {
                        assert(self.stack@ =~= base + referral_frames(resp.authority@.subrange(k as int, n as int), indent));
                    }
                }
                proof {
                    assert(resp.authority@.subrange(0, n as int) =~= resp.authority@);
                }
            },
        }
        lines
    }

    /// Takes the addresses that the lookup of the nameserver gave and queues
    /// one visit per address, in the resolver's order. No address at all
    /// ends the walk with `NoAddresses`.
    pub fn on_addresses(&mut self, addrs: &Vec<Ipv4>) -> (r: Result<(), WalkError>)
        requires
            old(self).wf(),
            old(self).waiting is Addresses,
        ensures
            final(self).wf(),
            final(self).query == old(self).query,
            final(self).waiting == Waiting::Nothing,
            ({
                let ns_name = old(self).waiting->Addresses_ns_name;
                let indent = old(self).waiting->Addresses_indent;
                &&& addrs@.len() == 0 ==> r == Err::<(), WalkError>(WalkError::NoAddresses)
                &&& addrs@.len() > 0 && indent > usize::MAX - INDENT_STEP ==> r == Err::<(), WalkError>(WalkError::TooDeep)
                &&& r is Err ==> final(self).stack@ == old(self).stack@
                &&& addrs@.len() > 0 && indent <= usize::MAX - INDENT_STEP ==> {
                    &&& r is Ok
                    &&& final(self).stack@ == old(self).stack@ + visit_frames(ns_name, addrs@, indent)
                }
            }),
    {
        let (ns_name, indent) = match &self.waiting {
            Waiting::Addresses { ns_name, indent } => (ns_name.clone(), *indent),
            _ => (String::new(), 0),
        };
        self.waiting = Waiting::Nothing;
        if addrs.len() == 0 {
            return Err(WalkError::NoAddresses);
        }
        if indent > usize::MAX - INDENT_STEP {
            return Err(WalkError::TooDeep);
        }
        let ghost base = self.stack@;
        let n = addrs.len();
        let mut k: usize = n;
        while k > 0
            invariant
                k <= n,
                n == addrs@.len(),
                indent <= usize::MAX - INDENT_STEP,
                self.query == old(self).query,
                self.waiting == Waiting::Nothing,
                self.wf(),
                base == old(self).stack@,
                self.stack@ == base + visit_frames(ns_name, addrs@.subrange(k as int, n as int), indent),
            decreases k,
        {
            k = k - 1;
            proof {
                assert(addrs@.subrange(k as int, n as int).drop_first() =~= addrs@.subrange(k + 1, n as int));
            }
            self.stack.push(Frame::Visit { ns_name: ns_name.clone(), address: addrs[k], indent });
            proof {
                assert(self.stack@ =~= base + visit_frames(ns_name, addrs@.subrange(k as int, n as int), indent));
            }
        }
        proof {
            assert(addrs@.subrange(0, n as int) =~= addrs@);
        }
        Ok(())
    }
}

} // verus!
