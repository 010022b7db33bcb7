//! The election state machine.
//!
//! A [`VotingMachine`] owns all election data: the phase, the administrator
//! identity fixed at construction, the registered voters, the voters who have
//! cast a vote, the tally over a closed option set fixed at construction, and
//! the voting window. Every mutating operation takes the caller's identity
//! and, where time matters, the current clock value as explicit arguments; it
//! validates, then either applies its whole effect or returns an error and
//! changes nothing.
//!
//! The invariant [`inv`] holds in every reachable state: the tally total
//! equals the number of votes cast, every vote comes from a registered voter,
//! and an open registration phase has no window, no votes and an all-zero
//! tally.

use vstd::prelude::*;

use crate::ids::{contains_id, id_view, ids_subset, lemma_push_no_duplicates, same_id};
use crate::tally::{
    all_zero, bump_first, counts_view, distinct_keys, find_key, lemma_bump_first_is_update,
    lemma_entry_le_sum, lemma_sum_all_zero, lemma_sum_update, lemma_zero_tally, sum_counts,
    tally_keys, zero_counts, zero_tally,
};

verus! {

/// The phases of the election.
#[derive(Debug, Clone, Copy, PartialEq, Eq, Structural)]
pub enum VotingState {
    RegistrationOpen,
    VotingActive,
    ResultsFinalized,
}

/// The validation failures an operation can return. Every error leaves the
/// machine exactly as it was.
#[derive(Debug, Clone, Copy, PartialEq, Eq, Structural)]
pub enum VotingError {
    /// An admin-only operation was invoked by another identity.
    Unauthorized,
    /// The operation is not valid in the current phase.
    InvalidPhase,
    /// The caller is already a registered voter.
    AlreadyRegistered,
    /// The caller is not a registered voter.
    NotRegistered,
    /// The caller has already cast a vote.
    AlreadyVoted,
    /// A vote was cast outside the voting phase.
    VotingNotActive,
    /// A vote was cast before the window opened or after it closed.
    WindowClosed,
    /// Voting cannot end before the window has expired.
    WindowNotExpired,
    /// The voting duration must be positive.
    InvalidDuration,
    /// The vote option is not in the option set.
    InvalidOption,
}

/// The abstract state of a [`VotingMachine`]: identities as character
/// sequences, the tally as a sequence of option/count pairs, and the window
/// as a pair of start and end time once voting has started.
pub ghost struct ElectionView {
    pub phase: VotingState,
    pub admin: Seq<char>,
    pub registered: Seq<Seq<char>>,
    pub voted: Seq<Seq<char>>,
    pub tally: Seq<(Seq<char>, u32)>,
    pub window: Option<(u64, u64)>,
}

/// What holds of every reachable election state.
pub open spec fn inv(v: ElectionView) -> bool {
    &&& v.registered.no_duplicates()
    &&& v.voted.no_duplicates()
    &&& distinct_keys(v.tally)
    &&& v.tally.len() > 0
    &&& ids_subset(v.voted, v.registered)
    &&& sum_counts(v.tally) == v.voted.len()
    &&& (v.phase == VotingState::RegistrationOpen ==> all_zero(v.tally) && v.voted.len() == 0)
    &&& (v.phase == VotingState::RegistrationOpen <==> v.window is None)
    &&& (match v.window {
        Some((start, end)) => start < end,
        None => true,
    })
}

/// Whether the clock value `now` falls inside the window: the bounds count,
/// on both sides.
pub open spec fn window_active(window: Option<(u64, u64)>, now: u64) -> bool {
    match window {
        Some((start, end)) => start <= now && now <= end,
        None => false,
    }
}

/// The election state machine.
pub struct VotingMachine {
    current_voting_state: VotingState,
    registered_voters: Vec<String>,
    votes_cast: Vec<String>,
    vote_counts: Vec<(String, u32)>,
    voting_start_time: Option<u64>,
    voting_end_time: Option<u64>,
    admin_id: String,
}

impl View for VotingMachine {
    type V = ElectionView;

    closed spec fn view(&self) -> ElectionView {
        ElectionView {
            phase: self.current_voting_state,
            admin: self.admin_id@,
            registered: id_view(self.registered_voters@),
            voted: id_view(self.votes_cast@),
            tally: counts_view(self.vote_counts@),
            window: match (self.voting_start_time, self.voting_end_time) {
                (Some(start), Some(end)) => Some((start, end)),
                _ => None,
            },
        }
    }
}

impl VotingMachine {
    /// Construction with an explicit option set: the creating identity
    /// becomes the administrator, the option set is fixed for the life of
    /// the machine, and registration opens.
    pub fn new_with_options(admin_id: String, options: Vec<String>) -> (r: VotingMachine)
        requires
            options@.len() > 0,
            id_view(options@).no_duplicates(),
        ensures
            r@.phase == VotingState::RegistrationOpen,
            r@.admin == admin_id@,
            r@.registered == Seq::<Seq<char>>::empty(),
            r@.voted == Seq::<Seq<char>>::empty(),
            r@.tally == zero_tally(id_view(options@)),
            r@.window is None,
            inv(r@),
    {
        let mut vote_counts: Vec<(String, u32)> = Vec::new();
        let mut i: usize = 0;
        while i < options.len()
            invariant
                i <= options@.len(),
                vote_counts@.len() == i,
                forall|j: int|
                    0 <= j < i ==> (#[trigger] vote_counts@[j]).0@ == options@[j]@
                        && vote_counts@[j].1 == 0u32,
            decreases options@.len() - i,
        {
            vote_counts.push((options[i].clone(), 0u32));
            i = i + 1;
        }
        let machine = VotingMachine {
            current_voting_state: VotingState::RegistrationOpen,
            registered_voters: Vec::new(),
            votes_cast: Vec::new(),
            vote_counts,
            voting_start_time: None,
            voting_end_time: None,
            admin_id,
        };
        proof {
            assert(machine@.tally =~= zero_tally(id_view(options@)));
            lemma_zero_tally(id_view(options@));
            assert(machine@.registered =~= Seq::<Seq<char>>::empty());
            assert(machine@.voted =~= Seq::<Seq<char>>::empty());
        }
        machine
    }

    /// Construction with the default option set `option_A`, `option_B`,
    /// `option_C`: the creating identity becomes the administrator and
    /// registration opens.
    pub fn new(admin_id: String) -> (r: VotingMachine)
        ensures
            r@.phase == VotingState::RegistrationOpen,
            r@.admin == admin_id@,
            r@.registered == Seq::<Seq<char>>::empty(),
            r@.voted == Seq::<Seq<char>>::empty(),
            r@.tally == seq![
                ("option_A"@, 0u32),
                ("option_B"@, 0u32),
                ("option_C"@, 0u32),
            ],
            r@.window is None,
            inv(r@),
    {
        let options: Vec<String> = vec![
            "option_A".to_owned(),
            "option_B".to_owned(),
            "option_C".to_owned(),
        ];
        proof {
            reveal_strlit("option_A");
            reveal_strlit("option_B");
            reveal_strlit("option_C");
            assert("option_A"@ != "option_B"@) by {
                assert("option_A"@[7] == 'A' && "option_B"@[7] == 'B');
            }
            assert("option_A"@ != "option_C"@) by {
                assert("option_A"@[7] == 'A' && "option_C"@[7] == 'C');
            }
            assert("option_B"@ != "option_C"@) by {
                assert("option_B"@[7] == 'B' && "option_C"@[7] == 'C');
            }
            assert(id_view(options@).no_duplicates());
        }
        let machine = Self::new_with_options(admin_id, options);
        proof {
            assert(machine@.tally =~= seq![
                ("option_A"@, 0u32),
                ("option_B"@, 0u32),
                ("option_C"@, 0u32),
            ]);
        }
        machine
    }

    /// Whether the caller is the administrator.
    fn is_admin(&self, caller_id: &str) -> (r: bool)
        ensures
            r == (caller_id@ == self@.admin),
    {
        same_id(caller_id, self.admin_id.as_str())
    }

    /// Whether the clock value `now` falls inside the voting window.
    fn is_voting_period_active(&self, now: u64) -> (r: bool)
        ensures
            r == window_active(self@.window, now),
    {
        match (self.voting_start_time, self.voting_end_time) {
            (Some(start), Some(end)) => start <= now && now <= end,
            _ => false,
        }
    }

    /// Opens registration: clears the voter and vote records, zeroes the
    /// tally and drops the window. Admin-only; callable from any phase, and
    /// from an open registration phase it simply re-clears.
    pub fn start_registration(&mut self, caller_id: &str) -> (r: Result<(), VotingError>)
        requires
            inv(old(self)@),
        ensures
            inv(final(self)@),
            caller_id@ != old(self)@.admin ==> r == Err::<(), VotingError>(
                VotingError::Unauthorized,
            ) && final(self)@ == old(self)@,
            caller_id@ == old(self)@.admin ==> r == Ok::<(), VotingError>(()) && final(self)@
                == (ElectionView {
                phase: VotingState::RegistrationOpen,
                registered: Seq::<Seq<char>>::empty(),
                voted: Seq::<Seq<char>>::empty(),
                tally: zero_tally(tally_keys(old(self)@.tally)),
                window: None,
                ..old(self)@
            }),
    {
        if !self.is_admin(caller_id) {
            return Err(VotingError::Unauthorized);
        }
        self.current_voting_state = VotingState::RegistrationOpen;
        self.registered_voters.clear();
        self.votes_cast.clear();
        zero_counts(&mut self.vote_counts);
        self.voting_start_time = None;
        self.voting_end_time = None;
        proof {
            assert(self@.registered =~= Seq::<Seq<char>>::empty());
            assert(self@.voted =~= Seq::<Seq<char>>::empty());
            lemma_zero_tally(tally_keys(old(self)@.tally));
            lemma_sum_all_zero(self@.tally);
        }
        Ok(())
    }

    /// Registers the caller as a voter. Open to any caller while
    /// registration is open; an identity registers at most once.
    pub fn register_voter(&mut self, caller_id: &str) -> (r: Result<(), VotingError>)
        requires
            inv(old(self)@),
        ensures
            inv(final(self)@),
            r is Err ==> final(self)@ == old(self)@,
            old(self)@.phase != VotingState::RegistrationOpen ==> r == Err::<(), VotingError>(
                VotingError::InvalidPhase,
            ),
            old(self)@.phase == VotingState::RegistrationOpen && old(self)@.registered.contains(
                caller_id@,
            ) ==> r == Err::<(), VotingError>(VotingError::AlreadyRegistered),
            old(self)@.phase == VotingState::RegistrationOpen && !old(self)@.registered.contains(
                caller_id@,
            ) ==> r == Ok::<(), VotingError>(()) && final(self)@ == (ElectionView {
                registered: old(self)@.registered.push(caller_id@),
                ..old(self)@
            }),
    {
        if self.current_voting_state != VotingState::RegistrationOpen {
            return Err(VotingError::InvalidPhase);
        }
        if contains_id(&self.registered_voters, caller_id) {
            return Err(VotingError::AlreadyRegistered);
        }
        self.registered_voters.push(caller_id.to_owned());
        proof {
            assert(self@.registered =~= old(self)@.registered.push(caller_id@));
            lemma_push_no_duplicates(old(self)@.registered, caller_id@);
            assert forall|x: Seq<char>| self@.voted.contains(x) implies self@.registered.contains(
                x,
            ) by {
                assert(old(self)@.registered.contains(x));
            }
        }
        Ok(())
    }

    /// Starts the voting phase with a window of `duration_in_seconds` time
    /// units beginning at the clock value `now`. Admin-only, only from open
    /// registration, and the duration must be positive. No unit conversion
    /// is applied: the caller scales the duration before the call.
    pub fn start_voting(
        &mut self,
        caller_id: &str,
        duration_in_seconds: u64,
        now: u64,
    ) -> (r: Result<(), VotingError>)
        requires
            inv(old(self)@),
            caller_id@ == old(self)@.admin && old(self)@.phase == VotingState::RegistrationOpen
                && duration_in_seconds > 0 ==> now + duration_in_seconds <= u64::MAX,
        ensures
            inv(final(self)@),
            r is Err ==> final(self)@ == old(self)@,
            caller_id@ != old(self)@.admin ==> r == Err::<(), VotingError>(
                VotingError::Unauthorized,
            ),
            caller_id@ == old(self)@.admin && old(self)@.phase != VotingState::RegistrationOpen
                ==> r == Err::<(), VotingError>(VotingError::InvalidPhase),
            caller_id@ == old(self)@.admin && old(self)@.phase == VotingState::RegistrationOpen
                && duration_in_seconds == 0 ==> r == Err::<(), VotingError>(
                VotingError::InvalidDuration,
            ),
            caller_id@ == old(self)@.admin && old(self)@.phase == VotingState::RegistrationOpen
                && duration_in_seconds > 0 ==> r == Ok::<(), VotingError>(()) && final(self)@
                == (ElectionView {
                phase: VotingState::VotingActive,
                window: Some((now, (now + duration_in_seconds) as u64)),
                ..old(self)@
            }),
    {
        if !self.is_admin(caller_id) {
            return Err(VotingError::Unauthorized);
        }
        if self.current_voting_state != VotingState::RegistrationOpen {
            return Err(VotingError::InvalidPhase);
        }
        if duration_in_seconds == 0 {
            return Err(VotingError::InvalidDuration);
        }
        self.current_voting_state = VotingState::VotingActive;
        self.voting_start_time = Some(now);
        self.voting_end_time = Some(now + duration_in_seconds);
        Ok(())
    }

    /// Casts the caller's vote for `vote_option` at the clock value `now`.
    /// Open to any registered caller who has not voted, during the voting
    /// phase and inside the window — the window's bounds count, on both
    /// sides. On success the caller is recorded and the option's count rises
    /// by exactly one; both happen together or neither.
    pub fn cast_vote(
        &mut self,
        caller_id: &str,
        vote_option: &str,
        now: u64,
    ) -> (r: Result<(), VotingError>)
        requires
            inv(old(self)@),
            old(self)@.phase == VotingState::VotingActive && old(self)@.registered.contains(
                caller_id@,
            ) && !old(self)@.voted.contains(caller_id@) && window_active(old(self)@.window, now)
                && tally_keys(old(self)@.tally).contains(vote_option@) ==> old(self)@.voted.len()
                < u32::MAX,
        ensures
            inv(final(self)@),
            r is Err ==> final(self)@ == old(self)@,
            old(self)@.phase != VotingState::VotingActive ==> r == Err::<(), VotingError>(
                VotingError::VotingNotActive,
            ),
            old(self)@.phase == VotingState::VotingActive && !old(self)@.registered.contains(
                caller_id@,
            ) ==> r == Err::<(), VotingError>(VotingError::NotRegistered),
            old(self)@.phase == VotingState::VotingActive && old(self)@.registered.contains(
                caller_id@,
            ) && old(self)@.voted.contains(caller_id@) ==> r == Err::<(), VotingError>(
                VotingError::AlreadyVoted,
            ),
            old(self)@.phase == VotingState::VotingActive && old(self)@.registered.contains(
                caller_id@,
            ) && !old(self)@.voted.contains(caller_id@) && !window_active(old(self)@.window, now)
                ==> r == Err::<(), VotingError>(VotingError::WindowClosed),
            old(self)@.phase == VotingState::VotingActive && old(self)@.registered.contains(
                caller_id@,
            ) && !old(self)@.voted.contains(caller_id@) && window_active(old(self)@.window, now)
                && !tally_keys(old(self)@.tally).contains(vote_option@) ==> r == Err::<
                (),
                VotingError,
            >(VotingError::InvalidOption),
            old(self)@.phase == VotingState::VotingActive && old(self)@.registered.contains(
                caller_id@,
            ) && !old(self)@.voted.contains(caller_id@) && window_active(old(self)@.window, now)
                && tally_keys(old(self)@.tally).contains(vote_option@) ==> r == Ok::<
                (),
                VotingError,
            >(()) && final(self)@ == (ElectionView {
                voted: old(self)@.voted.push(caller_id@),
                tally: bump_first(old(self)@.tally, vote_option@),
                ..old(self)@
            }),
    {
        if self.current_voting_state != VotingState::VotingActive {
            return Err(VotingError::VotingNotActive);
        }
        if !contains_id(&self.registered_voters, caller_id) {
            return Err(VotingError::NotRegistered);
        }
        if contains_id(&self.votes_cast, caller_id) {
            return Err(VotingError::AlreadyVoted);
        }
        if !self.is_voting_period_active(now) {
            return Err(VotingError::WindowClosed);
        }
        let found = find_key(&self.vote_counts, vote_option);
        match found {
            None => {
                proof {
                    assert forall|i: int|
                        0 <= i < self@.tally.len() implies (#[trigger] self@.tally[i]).0
                        != vote_option@ by {}
                    assert(!tally_keys(self@.tally).contains(vote_option@));
                }
                Err(VotingError::InvalidOption)
            },
            Some(i) => {
                proof {
                    assert(tally_keys(self@.tally)[i as int] == vote_option@);
                    assert(tally_keys(self@.tally).contains(vote_option@));
                    lemma_entry_le_sum(self@.tally, i as int);
                }
                let entry = self.vote_counts.remove(i);
                let count = entry.1;
                self.vote_counts.insert(i, (entry.0, count + 1));
                self.votes_cast.push(caller_id.to_owned());
                proof {
                    let t0 = old(self)@.tally;
                    assert(counts_view(self.vote_counts@) =~= t0.update(
                        i as int,
                        (vote_option@, (count + 1) as u32),
                    ));
                    assert(t0[i as int].0 == vote_option@);
                    lemma_bump_first_is_update(t0, vote_option@, i as int);
                    lemma_sum_update(t0, i as int, (vote_option@, (count + 1) as u32));
                    assert(self@.voted =~= old(self)@.voted.push(caller_id@));
                    lemma_push_no_duplicates(old(self)@.voted, caller_id@);
                    assert forall|x: Seq<char>| self@.voted.contains(x) implies
                        self@.registered.contains(x) by {
                        if old(self)@.voted.contains(x) {
                        } else {
                            assert(x == caller_id@);
                        }
                    }
                    assert(distinct_keys(self@.tally)) by {
                        assert(tally_keys(self@.tally) =~= tally_keys(t0));
                    }
                }
                Ok(())
            },
        }
    }

    /// Ends the voting phase and finalizes the results. Admin-only, only
    /// from the voting phase, and only once the clock value `now` has
    /// reached the window's end; the voter, vote and tally records are kept
    /// as the permanent record.
    pub fn end_voting(&mut self, caller_id: &str, now: u64) -> (r: Result<(), VotingError>)
        requires
            inv(old(self)@),
        ensures
            inv(final(self)@),
            r is Err ==> final(self)@ == old(self)@,
            caller_id@ != old(self)@.admin ==> r == Err::<(), VotingError>(
                VotingError::Unauthorized,
            ),
            caller_id@ == old(self)@.admin && old(self)@.phase != VotingState::VotingActive ==> r
                == Err::<(), VotingError>(VotingError::InvalidPhase),
            caller_id@ == old(self)@.admin && old(self)@.phase == VotingState::VotingActive
                && !window_expired(old(self)@.window, now) ==> r == Err::<(), VotingError>(
                VotingError::WindowNotExpired,
            ),
            caller_id@ == old(self)@.admin && old(self)@.phase == VotingState::VotingActive
                && window_expired(old(self)@.window, now) ==> r == Ok::<(), VotingError>(())
                && final(self)@ == (ElectionView {
                phase: VotingState::ResultsFinalized,
                ..old(self)@
            }),
    {
        if !self.is_admin(caller_id) {
            return Err(VotingError::Unauthorized);
        }
        if self.current_voting_state != VotingState::VotingActive {
            return Err(VotingError::InvalidPhase);
        }
        let end = match self.voting_end_time {
            Some(end) => end,
            None => {
                proof {
                    assert(false);
                }
                0
            },
        };
        if now < end {
            return Err(VotingError::WindowNotExpired);
        }
        self.current_voting_state = VotingState::ResultsFinalized;
        Ok(())
    }

    /// Returns the machine to its initial data state: same administrator,
    /// same option set, everything else cleared. Admin-only; callable from
    /// any phase, notably from finalized results to start a fresh cycle.
    pub fn reset_application(&mut self, caller_id: &str) -> (r: Result<(), VotingError>)
        requires
            inv(old(self)@),
        ensures
            inv(final(self)@),
            caller_id@ != old(self)@.admin ==> r == Err::<(), VotingError>(
                VotingError::Unauthorized,
            ) && final(self)@ == old(self)@,
            caller_id@ == old(self)@.admin ==> r == Ok::<(), VotingError>(()) && final(self)@
                == (ElectionView {
                phase: VotingState::RegistrationOpen,
                registered: Seq::<Seq<char>>::empty(),
                voted: Seq::<Seq<char>>::empty(),
                tally: zero_tally(tally_keys(old(self)@.tally)),
                window: None,
                ..old(self)@
            }),
    {
        self.start_registration(caller_id)
    }

    /// The current phase.
    pub fn get_current_state(&self) -> (r: &VotingState)
        ensures
            *r == self@.phase,
    {
        &self.current_voting_state
    }

    /// The tally, once the results are finalized; `None` before that.
    pub fn get_results(&self) -> (r: Option<&Vec<(String, u32)>>)
        ensures
            r is Some <==> self@.phase == VotingState::ResultsFinalized,
            r matches Some(counts) ==> counts_view(counts@) == self@.tally,
    {
        if self.current_voting_state == VotingState::ResultsFinalized {
            Some(&self.vote_counts)
        } else {
            None
        }
    }

    /// The number of registered voters.
    pub fn get_registered_voter_count(&self) -> (r: usize)
        ensures
            r == self@.registered.len(),
    {
        self.registered_voters.len()
    }

    /// The number of votes cast.
    pub fn get_votes_cast_count(&self) -> (r: usize)
        ensures
            r == self@.voted.len(),
    {
        self.votes_cast.len()
    }

    /// Whether the given identity is a registered voter.
    pub fn is_registered(&self, id: &str) -> (r: bool)
        ensures
            r == self@.registered.contains(id@),
    {
        contains_id(&self.registered_voters, id)
    }

    /// Whether the given identity has cast a vote.
    pub fn has_voted(&self, id: &str) -> (r: bool)
        ensures
            r == self@.voted.contains(id@),
    {
        contains_id(&self.votes_cast, id)
    }

    /// The count for the given option; `None` when the option is not in the
    /// option set.
    pub fn get_option_count(&self, option: &str) -> (r: Option<u32>)
        requires
            inv(self@),
        ensures
            r is Some <==> tally_keys(self@.tally).contains(option@),
            r matches Some(count) ==> exists|i: int|
                0 <= i < self@.tally.len() && self@.tally[i] == (option@, count),
    {
        let found = find_key(&self.vote_counts, option);
        match found {
            Some(i) => {
                proof {
                    assert(tally_keys(self@.tally)[i as int] == option@);
                    assert(self@.tally[i as int] == (option@, self.vote_counts@[i as int].1));
                }
                Some(self.vote_counts[i].1)
            },
            None => {
                proof {
                    assert forall|i: int|
                        0 <= i < self@.tally.len() implies (#[trigger] self@.tally[i]).0
                        != option@ by {}
                    assert(!tally_keys(self@.tally).contains(option@));
                }
                None
            },
        }
    }

    /// The voting window as a start and end time, once voting has started;
    /// `None` before that.
    pub fn get_window(&self) -> (r: Option<(u64, u64)>)
        ensures
            r == self@.window,
    {
        match (self.voting_start_time, self.voting_end_time) {
            (Some(start), Some(end)) => Some((start, end)),
            _ => None,
        }
    }

    /// The administrator's identity.
    pub fn get_admin_id(&self) -> (r: &str)
        ensures
            r@ == self@.admin,
    {
        self.admin_id.as_str()
    }
}

/// Whether the clock value `now` has reached the window's end.
pub open spec fn window_expired(window: Option<(u64, u64)>, now: u64) -> bool {
    match window {
        Some((start, end)) => now >= end,
        None => false,
    }
}

/// Law: in every reachable state, the total of all tally counts equals the
/// number of identities that have cast a vote.
pub proof fn lemma_tally_total_is_votes_cast(v: ElectionView)
    requires
        inv(v),
    ensures
        sum_counts(v.tally) == v.voted.to_set().len(),
{
    v.voted.unique_seq_to_set();
}

/// Law: in every reachable state, every identity that has cast a vote is a
/// registered voter.
pub proof fn lemma_votes_cast_are_registered(v: ElectionView)
    requires
        inv(v),
    ensures
        v.voted.to_set().subset_of(v.registered.to_set()),
{
}

} // verus!
