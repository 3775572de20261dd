//! What the stages of one job hand on to each other.
use crate::path::{
    absolute, join, joined, law_relative_paths_stay_apart, lemma_first_byte,
    lemma_name_start_of_joined, parent, parent_of, trimmed, SEPARATOR,
};
use crate::text::{lemma_encode_concat, lemma_encode_without_slash, opt_text};
use vstd::prelude::*;
use vstd::string::*;
use vstd::utf8::*;

verus! {

/// The record of a job, kept on disk between its stages.
#[derive(Debug, Clone, PartialEq, Eq)]
pub struct State {
    /// The spot fleet request that the job runs on.
    pub spot_fleet_request_id: String,
    /// Where the key that opens the instance lies.
    pub private_key: Vec<u8>,
    /// The address of the instance, once there is one to log in to.
    pub instance_address: Option<String>,
}

/// What a [`State`] holds.
pub struct StateView {
    pub spot_fleet_request_id: Seq<char>,
    pub private_key: Seq<u8>,
    pub instance_address: Option<Seq<char>>,
}

impl View for State {
    type V = StateView;

    open spec fn view(&self) -> StateView {
        StateView {
            spot_fleet_request_id: self.spot_fleet_request_id@,
            private_key: self.private_key@,
            instance_address: opt_text(self.instance_address),
        }
    }
}

impl StateView {
    /// The same record, with the instance at `address`.
    pub open spec fn at(self, address: Seq<char>) -> StateView {
        StateView { instance_address: Some(address), ..self }
    }
}

/// The directory, below the current one, that holds the records.
pub open spec fn state_dir_name() -> Seq<u8> {
    encode_utf8(".spot-gitlab-driver"@)
}

/// The name of the record of a job.
pub open spec fn state_file_name(job_id: Seq<char>) -> Seq<u8> {
    encode_utf8(job_id + ".state"@)
}

/// Where the record of a job lies.
pub open spec fn state_location(current_dir: Seq<u8>, job_id: Seq<char>) -> Seq<u8> {
    joined(joined(current_dir, state_dir_name()), state_file_name(job_id))
}

impl State {
    /// The record of a job whose fleet request was just made: no instance yet.
    pub fn new(spot_fleet_request_id: String, private_key: Vec<u8>) -> (state: State)
        ensures
            state@ == (StateView {
                spot_fleet_request_id: spot_fleet_request_id@,
                private_key: private_key@,
                instance_address: None,
            }),
            state.spot_fleet_request_id == spot_fleet_request_id,
            state.private_key == private_key,
            state.instance_address is None,
    {
        State { spot_fleet_request_id, private_key, instance_address: None }
    }

    /// Notes the address of the instance.
    pub fn set_address(&mut self, address: String)
        ensures
            final(self)@ == old(self)@.at(address@),
            final(self).spot_fleet_request_id == old(self).spot_fleet_request_id,
            final(self).private_key == old(self).private_key,
            final(self).instance_address == Some(address),
    {
        self.instance_address = Some(address);
    }

    /// The state file location.
    pub fn location(current_dir: &[u8], job_id: &str) -> (location: Vec<u8>)
        ensures
            location@ == state_location(current_dir@, job_id@),
    {
        let dir = join(current_dir, ".spot-gitlab-driver".as_bytes());
        let name = job_id.to_owned().concat(".state");
        join(dir.as_slice(), name.as_str().as_bytes())
    }

    /// The directory that has to exist for the record to be written, and the
    /// record itself.
    pub fn write_target(current_dir: &[u8], job_id: &str) -> (target: (Vec<u8>, Vec<u8>))
        ensures
            parent_of(state_location(current_dir@, job_id@)) == Some(target.0@),
            target.1@ == state_location(current_dir@, job_id@),
    {
        let location = State::location(current_dir, job_id);
        proof {
            law_record_lies_in_a_directory(current_dir@, job_id@);
        }
        let dir = parent(location.as_slice());
        (dir.unwrap(), location)
    }
}

/// The end of the path of a record, as bytes.
proof fn lemma_location_end(current_dir: Seq<u8>, job_id: Seq<char>)
    ensures
        state_location(current_dir, job_id).len() >= 6,
        state_location(current_dir, job_id).last() == 0x65u8,
{
    reveal_strlit(".state");
    let name = state_file_name(job_id);
    let suffix = ".state"@;
    lemma_encode_concat(job_id, suffix);
    is_ascii_chars_encode_utf8(suffix);
    assert(encode_utf8(suffix).len() == 6);
    assert(encode_utf8(suffix)[5] == 0x65u8);
    assert(name == encode_utf8(job_id) + encode_utf8(suffix));
    assert(name.last() == 0x65u8);
}

/// The path of every record names a file in some directory.
pub proof fn law_record_lies_in_a_directory(current_dir: Seq<u8>, job_id: Seq<char>)
    ensures
        parent_of(state_location(current_dir, job_id)) is Some,
{
    lemma_location_end(current_dir, job_id);
    let location = state_location(current_dir, job_id);
    assert(trimmed(location) == location);
}

/// The record of a job whose identifier is a plain name lies in the directory
/// of records below the current one.
pub proof fn law_record_lies_below_the_current_directory(current_dir: Seq<u8>, job_id: Seq<char>)
    requires
        !job_id.contains('/'),
    ensures
        parent_of(state_location(current_dir, job_id)) == Some(
            joined(current_dir, state_dir_name()),
        ),
{
    let dir = joined(current_dir, state_dir_name());
    let name = state_file_name(job_id);
    let location = state_location(current_dir, job_id);
    lemma_location_end(current_dir, job_id);
    assert(trimmed(location) == location);
    assert(!(job_id + ".state"@).contains('/')) by {
        reveal_strlit(".state");
        let full = job_id + ".state"@;
        assert forall|i: int| 0 <= i < full.len() implies full[i] != '/' by {
            if i < job_id.len() {
                assert(job_id.contains(job_id[i]));
            }
        }
    }
    lemma_encode_without_slash(job_id + ".state"@);
    assert(!absolute(name)) by {
        if absolute(name) {
            assert(name.contains(name[0]));
        }
    }
    assert(dir.len() >= 2 && dir.last() == 0x72u8) by {
        reveal_strlit(".spot-gitlab-driver");
        is_ascii_chars_encode_utf8(".spot-gitlab-driver"@);
        assert(state_dir_name().len() == 19);
        assert(state_dir_name()[0] == 0x2eu8);
        assert(state_dir_name()[18] == 0x72u8);
    }
    assert(location == dir.push(SEPARATOR) + name);
    lemma_name_start_of_joined(dir.push(SEPARATOR), name);
    assert(location.take(dir.len() as int + 1) =~= dir.push(SEPARATOR));
    assert(dir.push(SEPARATOR).drop_last() =~= dir);
    assert(trimmed(dir.push(SEPARATOR)) == trimmed(dir));
    assert(trimmed(dir) == dir);
    assert(location.len() > 1);
}

/// Jobs of one directory do not share a record. The one way to the record of
/// another job is an identifier that spells out the whole path to it.
pub proof fn law_jobs_have_records_of_their_own(
    current_dir: Seq<u8>,
    job: Seq<char>,
    other: Seq<char>,
)
    requires
        absolute(state_file_name(job)) == absolute(state_file_name(other)),
    ensures
        state_location(current_dir, job) == state_location(current_dir, other) <==> job == other,
{
    if state_location(current_dir, job) == state_location(current_dir, other) {
        let dir = joined(current_dir, state_dir_name());
        if !absolute(state_file_name(job)) {
            law_relative_paths_stay_apart(dir, state_file_name(job), state_file_name(other));
        }
        encode_utf8_decode_utf8(job + ".state"@);
        encode_utf8_decode_utf8(other + ".state"@);
        assert((job + ".state"@).len() == (other + ".state"@).len());
        assert(job =~= (job + ".state"@).take(job.len() as int));
        assert(other =~= (other + ".state"@).take(other.len() as int));
    }
}

/// What a record is seen to hold is all that it holds.
pub proof fn law_view_holds_the_whole_record(state: State, other: State)
    ensures
        state@.spot_fleet_request_id == state.spot_fleet_request_id@,
        state@.private_key == state.private_key@,
        state.instance_address is None <==> state@.instance_address is None,
        state.instance_address matches Some(address) ==> state@.instance_address == Some(
            address@,
        ),
        state@ == other@ ==> state.spot_fleet_request_id@ == other.spot_fleet_request_id@
            && state.private_key@ == other.private_key@ && (state.instance_address is Some
            <==> other.instance_address is Some) && (state.instance_address is Some
            ==> state.instance_address->0@ == other.instance_address->0@),
{
}

/// Noting an address changes the address and nothing else.
pub proof fn law_address_changes_only_the_address(record: StateView, address: Seq<char>)
    ensures
        record.at(address).spot_fleet_request_id == record.spot_fleet_request_id,
        record.at(address).private_key == record.private_key,
        record.at(address).instance_address == Some(address),
{
}

/// Below a directory, the record of a job is `.spot-gitlab-driver/`, the job's
/// identifier and `.state`. An identifier that starts at the root is itself the way
/// to the record.
pub proof fn law_location_is_spelt_out(current_dir: Seq<u8>, job_id: Seq<char>)
    ensures
        ({
            let location = state_location(current_dir, job_id);
            if job_id.len() > 0 && job_id[0] == '/' {
                location == encode_utf8(job_id + ".state"@)
            } else if current_dir.len() == 0 || current_dir[current_dir.len() - 1] == 0x2fu8 {
                location == current_dir + encode_utf8(
                    ".spot-gitlab-driver/"@ + job_id + ".state"@,
                )
            } else {
                location == current_dir + encode_utf8(
                    "/.spot-gitlab-driver/"@ + job_id + ".state"@,
                )
            }
        }),
{
    let name = job_id + ".state"@;
    let dir = ".spot-gitlab-driver"@;
    reveal_strlit(".state");
    reveal_strlit(".spot-gitlab-driver");
    reveal_strlit(".spot-gitlab-driver/");
    reveal_strlit("/.spot-gitlab-driver/");
    lemma_first_byte(name);
    lemma_first_byte(dir);
    if job_id.len() > 0 {
        assert(name[0] == job_id[0]);
    } else {
        assert(name[0] == '.');
    }
    is_ascii_chars_encode_utf8(dir);
    assert(encode_utf8(dir).len() == 19);
    assert(encode_utf8(dir)[18] == 0x72u8);
    let slash = seq!['/'];
    is_ascii_chars_encode_utf8(slash);
    assert(encode_utf8(slash) =~= seq![0x2fu8]);
    lemma_encode_concat(dir, slash);
    lemma_encode_concat(dir + slash, name);
    assert(dir + slash + name =~= ".spot-gitlab-driver/"@ + job_id + ".state"@);
    lemma_encode_concat(slash, dir + slash + name);
    assert(slash + (dir + slash + name) =~= "/.spot-gitlab-driver/"@ + job_id + ".state"@);
    let within = joined(current_dir, state_dir_name());
    assert(within.len() > 0 && within.last() == 0x72u8);
    if !(job_id.len() > 0 && job_id[0] == '/') {
        assert(state_location(current_dir, job_id) == within.push(SEPARATOR) + encode_utf8(name));
        if current_dir.len() == 0 || current_dir[current_dir.len() - 1] == 0x2fu8 {
            assert(state_location(current_dir, job_id) =~= current_dir + (encode_utf8(dir) + seq![
                0x2fu8,
            ] + encode_utf8(name)));
        } else {
            assert(state_location(current_dir, job_id) =~= current_dir + (seq![0x2fu8] + (
            encode_utf8(dir) + seq![0x2fu8] + encode_utf8(name))));
        }
    }
}

} // verus!
