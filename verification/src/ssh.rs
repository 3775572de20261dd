//! Logins and commands on the instance.
use crate::path::copy;
use crate::text::texts;
use vstd::prelude::*;
use vstd::string::*;

verus! {

/// What happens with hosts that were never seen before.
#[derive(Debug, Clone, Copy, PartialEq, Eq, Structural)]
pub enum KnownHosts {
    /// They are taken for what they say they are.
    Accept,
}

/// How to log in to an instance.
#[derive(Debug, PartialEq, Eq)]
pub struct Login {
    pub keyfile: Vec<u8>,
    pub known_hosts: KnownHosts,
    pub destination: String,
}

/// A program to run on the instance.
#[derive(Debug, PartialEq, Eq)]
pub struct RemoteCommand {
    pub program: String,
    pub args: Vec<String>,
    /// Whether the driver writes to the program's input.
    pub piped_stdin: bool,
}

/// Why a login failed.
#[derive(Debug, PartialEq, Eq)]
pub enum ConnectError {
    /// The instance could not be reached.
    Connect { error: String },
    /// Anything else.
    Other { error: String },
}

impl Login {
    /// The login of `user` at `address`, with the key at `keyfile`.
    pub open spec fn is_login(self, keyfile: Seq<u8>, user: Seq<char>, address: Seq<char>) -> bool {
        &&& self.keyfile@ == keyfile
        &&& self.known_hosts == KnownHosts::Accept
        &&& self.destination@ == user + "@"@ + address
    }
}

impl RemoteCommand {
    /// `program` with `args`.
    pub open spec fn is_command(
        self,
        program: Seq<char>,
        args: Seq<Seq<char>>,
        piped_stdin: bool,
    ) -> bool {
        &&& self.program@ == program
        &&& texts(self.args@) == args
        &&& self.piped_stdin == piped_stdin
    }
}

/// The login of `user` at `address`, with the key at `keyfile`.
pub fn login(keyfile: &[u8], user: &str, address: &str) -> (login: Login)
    ensures
        login.is_login(keyfile@, user@, address@),
{
    Login {
        keyfile: copy(keyfile),
        known_hosts: KnownHosts::Accept,
        destination: user.to_owned().concat("@").concat(address),
    }
}

/// The destination of a login is the user, an at sign and the address, and its key is
/// the one that it was given.
pub proof fn law_destination_is_user_at_address(
    login: Login,
    keyfile: Seq<u8>,
    user: Seq<char>,
    address: Seq<char>,
)
    requires
        login.is_login(keyfile, user, address),
    ensures
        login.keyfile@ == keyfile,
        login.known_hosts == KnownHosts::Accept,
        login.destination@.len() == user.len() + 1 + address.len(),
        login.destination@.take(user.len() as int) == user,
        login.destination@[user.len() as int] == '@',
        login.destination@.skip(user.len() as int + 1) == address,
{
    reveal_strlit("@");
    assert(login.destination@.take(user.len() as int) =~= user);
    assert(login.destination@.skip(user.len() as int + 1) =~= address);
}

/// Two users at one address log in to different destinations, and so does one user
/// at two addresses.
pub proof fn law_logins_stay_apart(
    one: Login,
    two: Login,
    keyfile: Seq<u8>,
    user: Seq<char>,
    other_user: Seq<char>,
    address: Seq<char>,
    other_address: Seq<char>,
)
    requires
        one.is_login(keyfile, user, address),
        two.is_login(keyfile, other_user, other_address),
    ensures
        address == other_address && user != other_user ==> one.destination@ != two.destination@,
        user == other_user && address != other_address ==> one.destination@ != two.destination@,
{
    reveal_strlit("@");
    law_destination_is_user_at_address(one, keyfile, user, address);
    law_destination_is_user_at_address(two, keyfile, other_user, other_address);
    if address == other_address && one.destination@ == two.destination@ {
        assert(user.len() == other_user.len());
    }
}

/// A command is the program and, one for one, the arguments that were asked for.
pub proof fn law_command_holds_its_words(
    command: RemoteCommand,
    program: Seq<char>,
    args: Seq<Seq<char>>,
    piped_stdin: bool,
)
    requires
        command.is_command(program, args, piped_stdin),
    ensures
        command.program@ == program,
        command.args@.len() == args.len(),
        forall|i: int| 0 <= i < args.len() ==> (#[trigger] command.args@[i])@ == args[i],
        command.piped_stdin == piped_stdin,
{
    assert forall|i: int| 0 <= i < args.len() implies (#[trigger] command.args@[i])@
        == args[i] by {
        assert(texts(command.args@)[i] == args[i]);
    }
}

} // verus!
