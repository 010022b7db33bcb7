//! The election operations over an explicit, caller-owned state record.
//!
//! This surface works on a [`VotingState`] with public fields, so a host can
//! hold the election data itself and drive it through free functions; errors
//! are reported as messages. The rules are the same as on
//! [`crate::machine::VotingMachine`]: admin-gated phase transitions, one
//! registration and one vote per identity, and a voting window whose bounds
//! count on both sides. Since the record's fields are public, no invariant
//! is imposed on input states: each function's contract states the exact
//! transition from any state.

use vstd::prelude::*;

use crate::ids::{contains_id, id_view, same_id};
use crate::tally::{
    bump_first, counts_view, find_key, lemma_bump_first_is_update, tally_keys, zero_counts,
    zero_tally,
};

verus! {

/// The phases a state record can hold. `RegistrationClosed` is the rest
/// state of a record built by a host before the administrator has opened
/// registration; the machine's own transitions never produce it.
#[derive(Debug, Clone, Copy, PartialEq, Eq, Structural)]
pub enum State {
    RegistrationClosed,
    RegistrationOpen,
    VotingActive,
    ResultsFinalized,
}

/// The election data as a record with public fields. A window that has not
/// been set is all-zero times.
pub struct VotingState {
    pub current_voting_state: State,
    pub registered_voters: Vec<String>,
    pub votes_cast: Vec<String>,
    pub vote_counts: Vec<(String, u32)>,
    pub voting_start_time: u64,
    pub voting_end_time: u64,
    pub admin_id: String,
}

/// The abstract value of a state record.
pub ghost struct StateView {
    pub phase: State,
    pub registered: Seq<Seq<char>>,
    pub voted: Seq<Seq<char>>,
    pub counts: Seq<(Seq<char>, u32)>,
    pub start: u64,
    pub end: u64,
    pub admin: Seq<char>,
}

impl View for VotingState {
    type V = StateView;

    open spec fn view(&self) -> StateView {
        StateView {
            phase: self.current_voting_state,
            registered: id_view(self.registered_voters@),
            voted: id_view(self.votes_cast@),
            counts: counts_view(self.vote_counts@),
            start: self.voting_start_time,
            end: self.voting_end_time,
            admin: self.admin_id@,
        }
    }
}

/// Opens registration: clears the voter and vote records, zeroes the tally
/// over the kept option set and drops the window. Admin-only; callable from
/// any phase, and from an open registration phase it simply re-clears.
pub fn start_registration(caller_id: &str, voting_state: &mut VotingState) -> (r: Result<
    (),
    String,
>)
    ensures
        caller_id@ != old(voting_state)@.admin ==> (r matches Err(m) && m@
            == "Only the admin can start registration."@ && final(voting_state)@
            == old(voting_state)@),
        caller_id@ == old(voting_state)@.admin ==> r is Ok && final(voting_state)@
            == (StateView {
            phase: State::RegistrationOpen,
            registered: Seq::<Seq<char>>::empty(),
            voted: Seq::<Seq<char>>::empty(),
            counts: zero_tally(tally_keys(old(voting_state)@.counts)),
            start: 0,
            end: 0,
            ..old(voting_state)@
        }),
{
    if !same_id(caller_id, voting_state.admin_id.as_str()) {
        return Err("Only the admin can start registration.".to_owned());
    }
    voting_state.registered_voters.clear();
    voting_state.votes_cast.clear();
    zero_counts(&mut voting_state.vote_counts);
    voting_state.voting_start_time = 0;
    voting_state.voting_end_time = 0;
    voting_state.current_voting_state = State::RegistrationOpen;
    proof {
        assert(voting_state@.registered =~= Seq::<Seq<char>>::empty());
        assert(voting_state@.voted =~= Seq::<Seq<char>>::empty());
    }
    Ok(())
}

/// Registers the caller as a voter. Open to any caller while registration
/// is open; an identity registers at most once.
pub fn register_voter(caller_id: &str, voting_state: &mut VotingState) -> (r: Result<(), String>)
    ensures
        old(voting_state)@.phase != State::RegistrationOpen ==> (r matches Err(m) && m@
            == "Registration is not open."@ && final(voting_state)@ == old(voting_state)@),
        old(voting_state)@.phase == State::RegistrationOpen && old(voting_state)@.registered.contains(caller_id@) ==> (r matches Err(m) && m@
            == "Voter is already registered."@ && final(voting_state)@ == old(voting_state)@),
        old(voting_state)@.phase == State::RegistrationOpen && !old(voting_state)@.registered.contains(caller_id@) ==> r is Ok && final(voting_state)@ == (StateView {
            registered: old(voting_state)@.registered.push(caller_id@),
            ..old(voting_state)@
        }),
{
    if voting_state.current_voting_state != State::RegistrationOpen {
        return Err("Registration is not open.".to_owned());
    }
    if contains_id(&voting_state.registered_voters, caller_id) {
        return Err("Voter is already registered.".to_owned());
    }
    voting_state.registered_voters.push(caller_id.to_owned());
    proof {
        assert(voting_state@.registered =~= old(voting_state)@.registered.push(caller_id@));
    }
    Ok(())
}

/// Starts the voting phase with a window of `duration_in_units` time units
/// beginning at the clock value `now`. Admin-only, only from open
/// registration, and the duration must be positive. The duration is taken
/// as given in the clock's own units: any scaling is the caller's.
pub fn start_voting(
    caller_id: &str,
    voting_state: &mut VotingState,
    duration_in_units: u64,
    now: u64,
) -> (r: Result<(), String>)
    requires
        caller_id@ == old(voting_state)@.admin && old(voting_state)@.phase
            == State::RegistrationOpen && duration_in_units > 0 ==> now + duration_in_units
            <= u64::MAX,
    ensures
        caller_id@ != old(voting_state)@.admin ==> (r matches Err(m) && m@
            == "Only the admin can start voting."@ && final(voting_state)@ == old(voting_state)@),
        caller_id@ == old(voting_state)@.admin && old(voting_state)@.phase
            != State::RegistrationOpen ==> (r matches Err(m) && m@ == "Voting is already active."@
            && final(voting_state)@ == old(voting_state)@),
        caller_id@ == old(voting_state)@.admin && old(voting_state)@.phase
            == State::RegistrationOpen && duration_in_units == 0 ==> (r matches Err(m) && m@
            == "Duration must be positive value."@ && final(voting_state)@ == old(voting_state)@),
        caller_id@ == old(voting_state)@.admin && old(voting_state)@.phase
            == State::RegistrationOpen && duration_in_units > 0 ==> r is Ok && final(voting_state)@ == (StateView {
            phase: State::VotingActive,
            start: now,
            end: (now + duration_in_units) as u64,
            ..old(voting_state)@
        }),
{
    if !same_id(caller_id, voting_state.admin_id.as_str()) {
        return Err("Only the admin can start voting.".to_owned());
    }
    if voting_state.current_voting_state != State::RegistrationOpen {
        return Err("Voting is already active.".to_owned());
    }
    if duration_in_units == 0 {
        return Err("Duration must be positive value.".to_owned());
    }
    voting_state.current_voting_state = State::VotingActive;
    voting_state.voting_start_time = now;
    voting_state.voting_end_time = now + duration_in_units;
    Ok(())
}

/// Casts the caller's vote for `vote_option` at the clock value `now`.
/// Open to any registered caller who has not voted, during the voting phase
/// and inside the window — the window's bounds count, on both sides. On
/// success the caller is recorded and the option's first entry rises by
/// exactly one; both happen together or neither.
pub fn cast_vote(
    caller_id: &str,
    vote_option: &str,
    voting_state: &mut VotingState,
    now: u64,
) -> (r: Result<(), String>)
    requires
        old(voting_state)@.phase == State::VotingActive && old(voting_state)@.registered.contains(
            caller_id@,
        ) && !old(voting_state)@.voted.contains(caller_id@) && old(voting_state)@.start <= now
            && now <= old(voting_state)@.end && tally_keys(old(voting_state)@.counts).contains(
            vote_option@,
        ) ==> forall|i: int|
            0 <= i < old(voting_state)@.counts.len() ==> (#[trigger] old(
                voting_state,
            )@.counts[i]).1 < u32::MAX,
    ensures
        old(voting_state)@.phase != State::VotingActive ==> (r matches Err(m) && m@
            == "Voting is not active."@ && final(voting_state)@ == old(voting_state)@),
        old(voting_state)@.phase == State::VotingActive && !old(voting_state)@.registered.contains(
            caller_id@,
        ) ==> (r matches Err(m) && m@ == "Caller is not a registered voter."@ && final(voting_state)@ == old(voting_state)@),
        old(voting_state)@.phase == State::VotingActive && old(voting_state)@.registered.contains(
            caller_id@,
        ) && old(voting_state)@.voted.contains(caller_id@) ==> (r matches Err(m) && m@
            == "Caller has already voted."@ && final(voting_state)@ == old(voting_state)@),
        old(voting_state)@.phase == State::VotingActive && old(voting_state)@.registered.contains(
            caller_id@,
        ) && !old(voting_state)@.voted.contains(caller_id@) && !(old(voting_state)@.start <= now
            && now <= old(voting_state)@.end) ==> (r matches Err(m) && m@
            == "Voting is not within the active period."@ && final(voting_state)@ == old(voting_state)@),
        old(voting_state)@.phase == State::VotingActive && old(voting_state)@.registered.contains(
            caller_id@,
        ) && !old(voting_state)@.voted.contains(caller_id@) && old(voting_state)@.start <= now
            && now <= old(voting_state)@.end && !tally_keys(
            old(voting_state)@.counts,
        ).contains(vote_option@) ==> (r matches Err(m) && m@ == "Invalid vote option."@ && final(voting_state)@ == old(voting_state)@),
        old(voting_state)@.phase == State::VotingActive && old(voting_state)@.registered.contains(
            caller_id@,
        ) && !old(voting_state)@.voted.contains(caller_id@) && old(voting_state)@.start <= now
            && now <= old(voting_state)@.end && tally_keys(
            old(voting_state)@.counts,
        ).contains(vote_option@) ==> r is Ok && final(voting_state)@ == (StateView {
            voted: old(voting_state)@.voted.push(caller_id@),
            counts: bump_first(old(voting_state)@.counts, vote_option@),
            ..old(voting_state)@
        }),
{
    if voting_state.current_voting_state != State::VotingActive {
        return Err("Voting is not active.".to_owned());
    }
    if !contains_id(&voting_state.registered_voters, caller_id) {
        return Err("Caller is not a registered voter.".to_owned());
    }
    if contains_id(&voting_state.votes_cast, caller_id) {
        return Err("Caller has already voted.".to_owned());
    }
    if now < voting_state.voting_start_time || now > voting_state.voting_end_time {
        return Err("Voting is not within the active period.".to_owned());
    }
    let found = find_key(&voting_state.vote_counts, vote_option);
    match found {
        None => {
            proof {
                assert forall|i: int|
                    0 <= i < voting_state@.counts.len() implies (#[trigger] voting_state@.counts[i]).0
                    != vote_option@ by {}
                assert(!tally_keys(voting_state@.counts).contains(vote_option@));
            }
            Err("Invalid vote option.".to_owned())
        },
        Some(i) => {
            proof {
                assert(tally_keys(voting_state@.counts)[i as int] == vote_option@);
                assert(tally_keys(voting_state@.counts).contains(vote_option@));
            }
            let entry = voting_state.vote_counts.remove(i);
            let count = entry.1;
            voting_state.vote_counts.insert(i, (entry.0, count + 1));
            voting_state.votes_cast.push(caller_id.to_owned());
            proof {
                let t0 = old(voting_state)@.counts;
                assert(counts_view(voting_state.vote_counts@) =~= t0.update(
                    i as int,
                    (vote_option@, (count + 1) as u32),
                ));
                lemma_bump_first_is_update(t0, vote_option@, i as int);
                assert(voting_state@.voted =~= old(voting_state)@.voted.push(caller_id@));
            }
            Ok(())
        },
    }
}

/// Ends the voting phase and finalizes the results. Admin-only, only from
/// the voting phase, and only once the clock value `now` has reached the
/// window's end; the voter, vote and tally records are kept.
pub fn end_voting(caller_id: &str, voting_state: &mut VotingState, now: u64) -> (r: Result<
    (),
    String,
>)
    ensures
        caller_id@ != old(voting_state)@.admin ==> (r matches Err(m) && m@
            == "Only the admin can end voting."@ && final(voting_state)@ == old(voting_state)@),
        caller_id@ == old(voting_state)@.admin && old(voting_state)@.phase != State::VotingActive
            ==> (r matches Err(m) && m@ == "Voting is not active."@ && final(voting_state)@ == old(voting_state)@),
        caller_id@ == old(voting_state)@.admin && old(voting_state)@.phase == State::VotingActive
            && now < old(voting_state)@.end ==> (r matches Err(m) && m@
            == "Voting period is still active."@ && final(voting_state)@ == old(voting_state)@),
        caller_id@ == old(voting_state)@.admin && old(voting_state)@.phase == State::VotingActive
            && now >= old(voting_state)@.end ==> r is Ok && final(voting_state)@ == (StateView {
            phase: State::ResultsFinalized,
            ..old(voting_state)@
        }),
{
    if !same_id(caller_id, voting_state.admin_id.as_str()) {
        return Err("Only the admin can end voting.".to_owned());
    }
    if voting_state.current_voting_state != State::VotingActive {
        return Err("Voting is not active.".to_owned());
    }
    if now < voting_state.voting_end_time {
        return Err("Voting period is still active.".to_owned());
    }
    voting_state.current_voting_state = State::ResultsFinalized;
    Ok(())
}

/// Returns the record to its initial data state: same administrator, same
/// option set with every count back to zero, everything else cleared.
/// Admin-only; callable from any phase, notably from finalized results to
/// start a fresh cycle.
pub fn reset_application(caller_id: &str, voting_state: &mut VotingState) -> (r: Result<
    (),
    String,
>)
    ensures
        caller_id@ != old(voting_state)@.admin ==> (r matches Err(m) && m@
            == "Only the admin can reset the application."@ && final(voting_state)@ == old(voting_state)@),
        caller_id@ == old(voting_state)@.admin ==> r is Ok && final(voting_state)@ == (StateView {
            phase: State::RegistrationOpen,
            registered: Seq::<Seq<char>>::empty(),
            voted: Seq::<Seq<char>>::empty(),
            counts: zero_tally(tally_keys(old(voting_state)@.counts)),
            start: 0,
            end: 0,
            ..old(voting_state)@
        }),
{
    if !same_id(caller_id, voting_state.admin_id.as_str()) {
        return Err("Only the admin can reset the application.".to_owned());
    }
    voting_state.current_voting_state = State::RegistrationOpen;
    voting_state.registered_voters.clear();
    voting_state.votes_cast.clear();
    zero_counts(&mut voting_state.vote_counts);
    voting_state.voting_start_time = 0;
    voting_state.voting_end_time = 0;
    proof {
        assert(voting_state@.registered =~= Seq::<Seq<char>>::empty());
        assert(voting_state@.voted =~= Seq::<Seq<char>>::empty());
    }
    Ok(())
}

} // verus!
