//! The per-connection capture: what each read of the peer's bytes leads to.
//!
//! A connection goes `Capturing -> {Closed | Errored}`. While capturing, each
//! read hands back a step for the caller to perform: record raw bytes in the
//! log file, or end the connection.
use vstd::prelude::*;
use crate::naming::{
    lemma_log_file_identity, log_file_name, log_file_name_of, peer_label, peer_label_of,
};
use crate::text::{decode_lossy, lossy_text};

verus! {

/// How many bytes a single read takes from the peer at most.
pub const READ_BUFFER_SIZE: usize = 1024;

/// The phase of a connection.
#[derive(PartialEq, Eq, Structural, Clone, Copy, Debug)]
pub enum Phase {
    Capturing,
    Closed,
    Errored,
}

/// What the caller does after a read or a failed log write.
#[derive(Debug)]
pub enum Step {
    /// Append `raw` to the log file, force it to storage, and show `notice`.
    Record { raw: Vec<u8>, notice: String },
    /// The peer closed the connection: show `notice` and end the task.
    Close { notice: String },
    /// Reading or logging failed: report `notice` as an error and end the task.
    Fail { notice: String },
}

/// One captured connection.
pub struct Session {
    /// The peer's label: its address, or the placeholder.
    pub peer: String,
    /// The name of the log file that receives the peer's bytes.
    pub log_file: String,
    pub phase: Phase,
    /// Every byte handed out to be recorded so far, in order.
    pub recorded: Ghost<Seq<u8>>,
}

/// A read as a value: the bytes read (none when the peer closed), or the error text.
pub open spec fn read_of(read: &Result<Vec<u8>, String>) -> Result<Seq<u8>, Seq<char>> {
    match read {
        Ok(b) => Ok(b@),
        Err(e) => Err(e@),
    }
}

/// The phase after a read.
pub open spec fn next_phase(phase: Phase, read: Result<Seq<u8>, Seq<char>>) -> Phase {
    if phase != Phase::Capturing {
        phase
    } else {
        match read {
            Ok(b) => if b.len() == 0 { Phase::Closed } else { Phase::Capturing },
            Err(_) => Phase::Errored,
        }
    }
}

/// The bytes that a read hands out to be recorded.
pub open spec fn recorded_by(phase: Phase, read: Result<Seq<u8>, Seq<char>>) -> Seq<u8> {
    if phase != Phase::Capturing {
        Seq::empty()
    } else {
        match read {
            Ok(b) => b,
            Err(_) => Seq::empty(),
        }
    }
}

/// The bytes recorded over a run of reads that starts in `phase`.
pub open spec fn recorded_by_run(phase: Phase, reads: Seq<Result<Seq<u8>, Seq<char>>>) -> Seq<u8>
    decreases reads.len(),
{
    if reads.len() == 0 {
        Seq::empty()
    } else {
        recorded_by(phase, reads[0]) + recorded_by_run(
            next_phase(phase, reads[0]),
            reads.drop_first(),
        )
    }
}

/// The bytes the peer sent, in read order, up to the read that ended the
/// connection (an empty read or an error).
pub open spec fn sent_until_end(reads: Seq<Result<Seq<u8>, Seq<char>>>) -> Seq<u8>
    decreases reads.len(),
{
    if reads.len() == 0 {
        Seq::empty()
    } else {
        match reads[0] {
            Ok(b) => if b.len() == 0 { Seq::empty() } else { b + sent_until_end(reads.drop_first()) },
            Err(_) => Seq::empty(),
        }
    }
}

/// The notice shown when a connection is accepted.
pub open spec fn connection_notice_of(peer: Seq<char>) -> Seq<char> {
    "Received connection from "@ + peer
}

/// The notice that shows what a peer sent.
pub open spec fn request_notice_of(peer: Seq<char>, text: Seq<char>) -> Seq<char> {
    "Received request from "@ + peer + ": "@ + text
}

/// The notice shown when the peer closes the connection.
pub open spec fn closed_notice_of(peer: Seq<char>) -> Seq<char> {
    "Connection closed by "@ + peer
}

/// The notice reported when a read fails.
pub open spec fn read_error_notice_of(peer: Seq<char>, err: Seq<char>) -> Seq<char> {
    "Error reading from "@ + peer + ": "@ + err
}

/// The notice reported when the log file cannot be written.
pub open spec fn log_error_notice_of(peer: Seq<char>, err: Seq<char>) -> Seq<char> {
    "Could not write log of "@ + peer + ": "@ + err
}

/// The bytes of a connection are recorded exactly as the peer sent them, in
/// read order, with nothing lost, added or reordered, whatever they hold.
pub proof fn lemma_byte_fidelity(reads: Seq<Result<Seq<u8>, Seq<char>>>)
    ensures
        recorded_by_run(Phase::Capturing, reads) == sent_until_end(reads),
    decreases reads.len(),
{
    if reads.len() > 0 {
        lemma_byte_fidelity(reads.drop_first());
        match reads[0] {
            Ok(b) => {
                if b.len() == 0 {
                    lemma_ended_records_nothing(Phase::Closed, reads.drop_first());
                    assert(recorded_by_run(Phase::Capturing, reads) =~= Seq::<u8>::empty());
                }
            },
            Err(_) => {
                lemma_ended_records_nothing(Phase::Errored, reads.drop_first());
                assert(recorded_by_run(Phase::Capturing, reads) =~= Seq::<u8>::empty());
            },
        }
    }
}

/// Once a connection has ended, nothing more is recorded for it.
pub proof fn lemma_ended_records_nothing(phase: Phase, reads: Seq<Result<Seq<u8>, Seq<char>>>)
    requires
        phase != Phase::Capturing,
    ensures
        recorded_by_run(phase, reads) == Seq::<u8>::empty(),
    decreases reads.len(),
{
    if reads.len() > 0 {
        lemma_ended_records_nothing(phase, reads.drop_first());
        assert(recorded_by_run(phase, reads) =~= Seq::<u8>::empty());
    }
}

/// One connection as the log files see it: its start second, its peer label,
/// and the outcomes of its reads.
pub type Connection = (nat, Seq<char>, Seq<Result<Seq<u8>, Seq<char>>>);

/// The log file a connection writes to.
pub open spec fn file_of(c: Connection) -> Seq<char> {
    log_file_name_of(c.0, c.1)
}

/// The log files after the given connections, each appending what it
/// recorded to its own file, created when absent.
pub open spec fn log_files(conns: Seq<Connection>) -> Map<Seq<char>, Seq<u8>>
    decreases conns.len(),
{
    if conns.len() == 0 {
        Map::empty()
    } else {
        let files = log_files(conns.drop_last());
        let c = conns.last();
        let before = if files.contains_key(file_of(c)) { files[file_of(c)] } else { Seq::empty() };
        files.insert(file_of(c), before + recorded_by_run(Phase::Capturing, c.2))
    }
}

/// Connections of distinct identities (start second and peer) keep to their
/// own files: afterwards each one's file holds exactly the bytes its peer
/// sent, and there is no other file.
pub proof fn lemma_connections_keep_to_their_files(conns: Seq<Connection>)
    requires
        forall|i: int, j: int|
            0 <= i < j < conns.len() ==> (#[trigger] conns[i].0, conns[i].1) != (
                #[trigger] conns[j].0,
                conns[j].1,
            ),
    ensures
        forall|i: int|
            0 <= i < conns.len() ==> #[trigger] log_files(conns).contains_key(file_of(conns[i]))
                && log_files(conns)[file_of(conns[i])] == sent_until_end(conns[i].2),
        forall|k: Seq<char>|
            #[trigger] log_files(conns).contains_key(k) ==> exists|i: int|
                0 <= i < conns.len() && k == file_of(#[trigger] conns[i]),
    decreases conns.len(),
{
    if conns.len() > 0 {
        let prefix = conns.drop_last();
        let n = conns.len() - 1;
        let c = conns.last();
        lemma_connections_keep_to_their_files(prefix);
        let files = log_files(prefix);
        assert forall|i: int| 0 <= i < prefix.len() implies file_of(#[trigger] prefix[i]) != file_of(
            c,
        ) by {
            assert(prefix[i] == conns[i]);
            assert((conns[i].0, conns[i].1) != (conns[n].0, conns[n].1));
            lemma_log_file_identity(conns[i].0, conns[i].1, c.0, c.1);
        }
        if files.contains_key(file_of(c)) {
            let i = choose|i: int| 0 <= i < prefix.len() && file_of(c) == file_of(#[trigger] prefix[i]);
            assert(false);
        }
        lemma_byte_fidelity(c.2);
        assert(Seq::<u8>::empty() + recorded_by_run(Phase::Capturing, c.2) =~= recorded_by_run(
            Phase::Capturing,
            c.2,
        ));
        assert forall|i: int| 0 <= i < conns.len() implies #[trigger] log_files(conns).contains_key(
            file_of(conns[i]),
        ) && log_files(conns)[file_of(conns[i])] == sent_until_end(conns[i].2) by {
            if i < n {
                assert(prefix[i] == conns[i]);
            }
        }
        assert forall|k: Seq<char>| #[trigger] log_files(conns).contains_key(k) implies exists|i: int|
            0 <= i < conns.len() && k == file_of(#[trigger] conns[i]) by {
            if k == file_of(c) {
                assert(conns[n] == c);
            } else {
                assert(files.contains_key(k));
                let i = choose|i: int| 0 <= i < prefix.len() && k == file_of(#[trigger] prefix[i]);
                assert(prefix[i] == conns[i]);
            }
        }
    }
}

impl Session {
    /// Starts capturing a connection that began at `timestamp` (seconds since
    /// the Unix epoch) from the peer whose address text is `addr`, if known.
    pub fn new(timestamp: u64, addr: Option<String>) -> (r: Session)
        ensures
            r.peer@ == peer_label_of(
                match addr {
                    Some(a) => Some(a@),
                    None => None,
                },
            ),
            r.log_file@ == log_file_name_of(timestamp as nat, r.peer@),
            r.phase == Phase::Capturing,
            r.recorded@ == Seq::<u8>::empty(),
    {
        let peer = peer_label(addr);
        let log_file = log_file_name(timestamp, peer.as_str());
        Session { peer, log_file, phase: Phase::Capturing, recorded: Ghost(Seq::empty()) }
    }

    /// The notice shown when the connection is accepted.
    pub fn connection_notice(&self) -> (r: String)
        ensures
            r@ == connection_notice_of(self.peer@),
    {
        let r = String::from_str("Received connection from ").concat(self.peer.as_str());
        r
    }

    /// Takes the outcome of one read: the bytes read, none when the peer
    /// closed the connection, or the error text.
    pub fn on_read(&mut self, read: Result<Vec<u8>, String>) -> (r: Step)
        requires
            old(self).phase == Phase::Capturing,
        ensures
            final(self).peer == old(self).peer,
            final(self).log_file == old(self).log_file,
            final(self).phase == next_phase(old(self).phase, read_of(&read)),
            final(self).recorded@ == old(self).recorded@ + recorded_by(
                old(self).phase,
                read_of(&read),
            ),
            match read {
                Ok(b) => if b@.len() == 0 {
                    r is Close && r->Close_notice@ == closed_notice_of(old(self).peer@)
                } else {
                    r is Record && r->raw@ == b@ && r->Record_notice@ == request_notice_of(
                        old(self).peer@,
                        lossy_text(b@),
                    ) && (vstd::utf8::valid_utf8(b@) ==> r->Record_notice@ == request_notice_of(
                        old(self).peer@,
                        vstd::utf8::decode_utf8(b@),
                    )) && (!vstd::utf8::valid_utf8(b@) ==> r->Record_notice@.contains('\u{FFFD}'))
                },
                Err(e) => r is Fail && r->Fail_notice@ == read_error_notice_of(old(self).peer@, e@),
            },
    {
        match read {
            Ok(b) => {
                if b.len() == 0 {
                    self.phase = Phase::Closed;
                    let notice = String::from_str("Connection closed by ").concat(self.peer.as_str());
                    assert(self.recorded@ + Seq::<u8>::empty() =~= self.recorded@);
                    Step::Close { notice }
                } else {
                    let text = decode_lossy(b.as_slice());
                    let notice = String::from_str("Received request from ").concat(
                        self.peer.as_str(),
                    ).concat(": ").concat(text.as_str());
                    proof {
                        if !vstd::utf8::valid_utf8(b@) {
                            let i = choose|i: int| 0 <= i < text@.len() && text@[i] == '\u{FFFD}';
                            let k = notice@.len() - text@.len();
                            assert(notice@[k + i] == text@[i]);
                        }
                    }
                    self.recorded = Ghost(self.recorded@ + b@);
                    Step::Record { raw: b, notice }
                }
            },
            Err(e) => {
                self.phase = Phase::Errored;
                let notice = String::from_str("Error reading from ").concat(
                    self.peer.as_str(),
                ).concat(": ").concat(e.as_str());
                assert(self.recorded@ + Seq::<u8>::empty() =~= self.recorded@);
                Step::Fail { notice }
            },
        }
    }

    /// Takes a failure to open, write or sync the log file: the connection ends
    /// in error, and nothing else is affected.
    pub fn on_log_error(&mut self, err: String) -> (r: Step)
        requires
            old(self).phase == Phase::Capturing,
        ensures
            final(self).peer == old(self).peer,
            final(self).log_file == old(self).log_file,
            final(self).phase == Phase::Errored,
            final(self).recorded == old(self).recorded,
            r is Fail && r->Fail_notice@ == log_error_notice_of(old(self).peer@, err@),
    {
        self.phase = Phase::Errored;
        let notice = String::from_str("Could not write log of ").concat(self.peer.as_str()).concat(
            ": ",
        ).concat(err.as_str());
        Step::Fail { notice }
    }
}

} // verus!
