//! Mock-server sessions: the registry of running sessions by id, and what
//! the session operations hand back to the caller.

use vstd::prelude::*;
use crate::outside::new_session_id;
use crate::path::{decimal, decimal_string};

verus! {

/// What a caller holds of a running session.
#[derive(Debug)]
pub struct MockServerHandle {
    pub id: String,
    pub port: u16,
    pub url: String,
}

/// The base URL of a session bound to `port` on the loopback address.
pub open spec fn url_of(port: u16) -> Seq<char> {
    "http://127.0.0.1:"@ + decimal(port as nat)
}

/// Writes the base URL of a session bound to `port`.
pub fn server_url(port: u16) -> (url: String)
    ensures
        url@ == url_of(port),
{
    let digits = decimal_string(port as usize);
    String::from_str("http://127.0.0.1:").concat(digits.as_str())
}

/// Why a session could not be started.
#[derive(Debug)]
pub enum StartError {
    /// The listener could not be bound; the text says why.
    BindFailed(String),
}

/// What is known of the mismatches of a session.
#[derive(Debug)]
pub enum Mismatches {
    /// No session is registered under the id.
    UnknownSession,
    /// The mismatches that the session recorded, in the order in which it
    /// saw the requests.
    Recorded(Vec<String>),
}

/// Why a contract could not be persisted.
#[derive(Debug)]
pub enum PersistError {
    /// No session is registered under the id.
    UnknownSession,
    /// The file could not be written; the text says why.
    WriteFailed(String),
}

/// What a test run hands back: the session it ran against, and either the
/// value of the test routine or the description of its failure.
#[derive(Debug)]
pub struct TestOutcome {
    pub mock_server: MockServerHandle,
    pub test_result: Option<String>,
    pub test_error: Option<String>,
}

/// The ports by session id after the registrations in `sessions`, a later
/// one replacing an earlier one of the same id.
pub open spec fn table(sessions: Seq<(String, u16)>) -> Map<Seq<char>, u16>
    decreases sessions.len(),
{
    if sessions.len() == 0 {
        Map::empty()
    } else {
        table(sessions.drop_last()).insert(sessions.last().0@, sessions.last().1)
    }
}

proof fn table_step(sessions: Seq<(String, u16)>, i: int)
    requires
        0 < i <= sessions.len(),
    ensures
        table(sessions.take(i)) == table(sessions.take(i - 1)).insert(
            sessions[i - 1].0@,
            sessions[i - 1].1,
        ),
{
    assert(sessions.take(i).drop_last() =~= sessions.take(i - 1));
}

/// The registry of running sessions: the bound port of each session id.
pub struct Registry {
    sessions: Vec<(String, u16)>,
}

impl View for Registry {
    type V = Map<Seq<char>, u16>;

    closed spec fn view(&self) -> Map<Seq<char>, u16> {
        table(self.sessions@)
    }
}

impl Registry {
    /// The registry without sessions.
    pub fn new() -> (registry: Registry)
        ensures
            registry@ == Map::<Seq<char>, u16>::empty(),
    {
        Registry { sessions: Vec::new() }
    }

    /// Looks a session up by its id and hands out its handle.
    pub fn find_by_id(&self, id: &String) -> (found: Option<MockServerHandle>)
        ensures
            match found {
                Some(handle) => self@.contains_key(id@) && handle.id@ == id@ && handle.port
                    == self@[id@] && handle.url@ == url_of(handle.port),
                None => !self@.contains_key(id@),
            },
    {
        let ghost all = self.sessions@;
        let mut i: usize = self.sessions.len();
        assert(all.take(i as int) =~= all);
        while i > 0
            invariant
                i <= self.sessions.len(),
                all == self.sessions@,
                table(all).contains_key(id@) == table(all.take(i as int)).contains_key(id@),
                table(all).contains_key(id@) ==> table(all)[id@] == table(all.take(i as int))[id@],
            decreases i,
        {
            proof {
                table_step(all, i as int);
            }
            if self.sessions[i - 1].0 == *id {
                let port = self.sessions[i - 1].1;
                return Some(MockServerHandle { id: id.clone(), port, url: server_url(port) });
            }
            i -= 1;
        }
        None
    }

    /// Whether a session is registered under the id.
    pub fn is_registered(&self, id: &String) -> (registered: bool)
        ensures
            registered == self@.contains_key(id@),
    {
        self.find_by_id(id).is_some()
    }

    /// Draws a random token for a new session. The outcome is `None` where
    /// the token drawn is already the id of a session.
    pub fn allocate_id(&self) -> (id: Option<String>)
        ensures
            id.is_some() ==> !self@.contains_key(id.unwrap()@) && id.unwrap()@.len() == 32,
            id.is_none() ==> exists|taken: Seq<char>|
                taken.len() == 32 && #[trigger] self@.contains_key(taken),
    {
        let token = new_session_id();
        let ghost drawn = token@;
        let id = self.accept_id(token);
        proof {
            if id.is_none() {
                assert(drawn.len() == 32 && self@.contains_key(drawn));
            }
        }
        id
    }

    /// Takes a token as the id of a new session: the token itself comes
    /// back, unless a session is already registered under it.
    pub fn accept_id(&self, token: String) -> (id: Option<String>)
        ensures
            id == (if self@.contains_key(token@) {
                None
            } else {
                Some(token)
            }),
    {
        if self.is_registered(&token) {
            None
        } else {
            Some(token)
        }
    }

    /// Completes the start of a session under `id`, given how the binding of
    /// its listener ended. A bound listener is registered under the id and
    /// its handle comes back; a failed binding is reported with its reason
    /// and leaves the registry as it was.
    pub fn start(&mut self, id: String, bound: Result<u16, String>) -> (started: Result<
        MockServerHandle,
        StartError,
    >)
        ensures
            match bound {
                Ok(port) => started is Ok && started->Ok_0.id@ == id@ && started->Ok_0.port == port
                    && started->Ok_0.url@ == url_of(port) && final(self)@ == old(self)@.insert(
                    id@,
                    port,
                ),
                Err(reason) => started is Err && started->Err_0 == StartError::BindFailed(reason)
                    && final(self)@ == old(self)@,
            },
    {
        match bound {
            Ok(port) => {
                let handle = MockServerHandle { id: id.clone(), port, url: server_url(port) };
                self.sessions.push((id, port));
                proof {
                    assert(self.sessions@.drop_last() =~= old(self).sessions@);
                }
                Ok(handle)
            },
            Err(reason) => Err(StartError::BindFailed(reason)),
        }
    }

    /// Removes the session registered under the id and says whether there
    /// was one. Without one the registry stays as it was.
    pub fn shutdown_by_id(&mut self, id: &String) -> (was_registered: bool)
        ensures
            was_registered == old(self)@.contains_key(id@),
            final(self)@ == old(self)@.remove(id@),
            !old(self)@.contains_key(id@) ==> final(self)@ == old(self)@,
    {
        let ghost all = self.sessions@;
        let mut kept: Vec<(String, u16)> = Vec::new();
        let mut found = false;
        let mut i: usize = 0;
        assert(table(all.take(0)).remove(id@) =~= table(kept@));
        while i < self.sessions.len()
            invariant
                i <= self.sessions.len(),
                all == self.sessions@,
                self.sessions@ == old(self).sessions@,
                table(kept@) == table(all.take(i as int)).remove(id@),
                found == table(all.take(i as int)).contains_key(id@),
            decreases self.sessions.len() - i,
        {
            proof {
                table_step(all, i + 1);
            }
            if self.sessions[i].0 == *id {
                found = true;
                assert(table(all.take(i + 1)).remove(id@) =~= table(kept@));
            } else {
                let ghost before = kept@;
                kept.push((self.sessions[i].0.clone(), self.sessions[i].1));
                proof {
                    assert(kept@.drop_last() =~= before);
                    assert(table(all.take(i + 1)).remove(id@) =~= table(kept@));
                }
            }
            i += 1;
        }
        proof {
            assert(all.take(i as int) =~= all);
            if !found {
                assert(table(all).remove(id@) =~= table(all));
            }
        }
        self.sessions = kept;
        found
    }

    /// The mismatches of the session under `id`, given what its instance
    /// recorded: a registered session hands them out as they are, an empty
    /// sequence too; an unknown id is reported as such.
    pub fn collect_mismatches(&self, id: &String, recorded: Vec<String>) -> (collected: Mismatches)
        ensures
            self@.contains_key(id@) ==> collected == Mismatches::Recorded(recorded),
            !self@.contains_key(id@) ==> collected is UnknownSession,
    {
        if self.is_registered(id) {
            Mismatches::Recorded(recorded)
        } else {
            Mismatches::UnknownSession
        }
    }

    /// How persisting the contract of the session under `id` ended, given
    /// how the write ended: a failed write is reported with its reason, an
    /// unknown id as such. The registry is not changed.
    pub fn persist(&self, id: &String, written: Result<(), String>) -> (persisted: Result<
        (),
        PersistError,
    >)
        ensures
            !self@.contains_key(id@) ==> persisted == Err::<(), PersistError>(
                PersistError::UnknownSession,
            ),
            self@.contains_key(id@) ==> match written {
                Ok(_) => persisted is Ok,
                Err(reason) => persisted == Err::<(), PersistError>(
                    PersistError::WriteFailed(reason),
                ),
            },
    {
        if self.is_registered(id) {
            match written {
                Ok(_) => Ok(()),
                Err(reason) => Err(PersistError::WriteFailed(reason)),
            }
        } else {
            Err(PersistError::UnknownSession)
        }
    }
}

/// Puts the outcome of a test run together: the handle of the session, and
/// the value of the test routine or the description of its failure, never
/// both.
pub fn test_outcome(mock_server: MockServerHandle, ran: Result<String, String>) -> (outcome:
    TestOutcome)
    ensures
        outcome.mock_server == mock_server,
        match ran {
            Ok(value) => outcome.test_result == Some(value) && outcome.test_error.is_none(),
            Err(failure) => outcome.test_result.is_none() && outcome.test_error == Some(failure),
        },
{
    match ran {
        Ok(value) => TestOutcome { mock_server, test_result: Some(value), test_error: None },
        Err(failure) => TestOutcome { mock_server, test_result: None, test_error: Some(failure) },
    }
}

/// A session started under an id that was not registered stands beside the
/// sessions that were: the new id differs from every registered one, each
/// id leads to its own port, and shutting the new session down leaves the
/// others as they were.
pub proof fn sessions_are_independent(
    before: Map<Seq<char>, u16>,
    first: Seq<char>,
    second: Seq<char>,
    second_port: u16,
)
    requires
        before.contains_key(first),
        !before.contains_key(second),
    ensures
        first != second,
        before.insert(second, second_port)[first] == before[first],
        before.insert(second, second_port)[second] == second_port,
        before.insert(second, second_port).remove(second) == before,
{
    assert(before.insert(second, second_port).remove(second) =~= before);
}

} // verus!
