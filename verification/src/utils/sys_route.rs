//! The commands that set and clear routes in the system's routing table.
//! The caller runs them.

use vstd::prelude::*;
use vstd::string::*;
use crate::codec::frame::texts;
use crate::network::addr::dotted;
use crate::network::addr::ipv4_text;
use crate::network::cidr::netmask;
use crate::utils::text::find_char;
use crate::utils::text::i32_to_string;
use crate::utils::text::parse_u8;
use crate::utils::text::slice_chars;
use crate::utils::text::text_of_i32;
use crate::utils::text::u8_of_text;

verus! {

/// The operating system whose routing table is changed.
#[derive(Clone, Copy, Debug, PartialEq, Eq, Structural)]
pub enum Platform {
    Linux,
    MacOs,
    Windows,
}

/// Why no command could be made for a route.
#[derive(Clone, Copy, Debug, PartialEq, Eq, Structural)]
pub enum RouteError {
    /// The destination is not of the form `network/prefix`.
    InvalidCidr,
    /// The prefix length is no number from 0 to 32.
    InvalidPrefixLength,
}

/// A program and its arguments.
#[derive(Debug, Clone)]
pub struct RouteCommand {
    pub program: String,
    pub args: Vec<String>,
}

/// Whether the only slash of `s` is at `i`.
pub open spec fn only_slash_at(s: Seq<char>, i: int) -> bool {
    &&& 0 <= i < s.len()
    &&& s[i] == '/'
    &&& forall|k: int| 0 <= k < s.len() && k != i ==> s[k] != '/'
}

/// The prefix length that stands behind the slash at `i`, if it is a number
/// from 0 to 32.
pub open spec fn prefix_behind(s: Seq<char>, i: int) -> Option<u8> {
    match u8_of_text(s.subrange(i + 1, s.len() as int)) {
        Some(prefix) => if prefix <= 32 {
            Some(prefix)
        } else {
            None
        },
        None => None,
    }
}

/// The place of the only slash of `s`.
pub open spec fn the_slash(s: Seq<char>) -> int {
    choose|i: int| only_slash_at(s, i)
}

/// The network and the netmask that `network/prefix` text stands for.
pub open spec fn cidr_words(s: Seq<char>) -> Result<(Seq<char>, Seq<char>), RouteError> {
    if !exists|i: int| only_slash_at(s, i) {
        Err(RouteError::InvalidCidr)
    } else {
        match prefix_behind(s, the_slash(s)) {
            Some(prefix) => Ok((s.subrange(0, the_slash(s)), dotted(netmask(prefix)))),
            None => Err(RouteError::InvalidPrefixLength),
        }
    }
}

/// The arguments of the command that adds a route to `dst` by `gateway`.
///
/// On Linux the command is `ip route add <dst> via <gateway>`, on macOS
/// `route -n add -net <dst> <gateway>`. On Windows it is
/// `route add <network> mask <netmask> <gateway> metric 1`, with
/// `if <index>` before `metric` when the interface index is known; there
/// `dst` must be of the form `network/prefix`.
pub open spec fn add_args(
    platform: Platform,
    dst: Seq<char>,
    gateway: Seq<char>,
    interface_idx: Option<i32>,
) -> Result<Seq<Seq<char>>, RouteError> {
    match platform {
        Platform::Linux => Ok(seq!["route"@, "add"@, dst, "via"@, gateway]),
        Platform::MacOs => Ok(seq!["-n"@, "add"@, "-net"@, dst, gateway]),
        Platform::Windows => match cidr_words(dst) {
            Ok((network, mask)) => match interface_idx {
                Some(idx) => Ok(
                    seq![
                        "add"@,
                        network,
                        "mask"@,
                        mask,
                        gateway,
                        "if"@,
                        text_of_i32(idx),
                        "metric"@,
                        "1"@,
                    ],
                ),
                None => Ok(seq!["add"@, network, "mask"@, mask, gateway, "metric"@, "1"@]),
            },
            Err(e) => Err(e),
        },
    }
}

/// The arguments of the command that deletes the route to `dst` by
/// `gateway`.
///
/// On Linux the command is `ip route del <dst> via <gateway>`, on macOS
/// `route -n delete -net <dst> <gateway>`, and on Windows
/// `route delete <network> mask <netmask>`, where `dst` must be of the form
/// `network/prefix`.
pub open spec fn del_args(platform: Platform, dst: Seq<char>, gateway: Seq<char>) -> Result<
    Seq<Seq<char>>,
    RouteError,
> {
    match platform {
        Platform::Linux => Ok(seq!["route"@, "del"@, dst, "via"@, gateway]),
        Platform::MacOs => Ok(seq!["-n"@, "delete"@, "-net"@, dst, gateway]),
        Platform::Windows => match cidr_words(dst) {
            Ok((network, mask)) => Ok(seq!["delete"@, network, "mask"@, mask]),
            Err(e) => Err(e),
        },
    }
}

/// The arguments of one command for one destination.
pub open spec fn route_args(
    adding: bool,
    platform: Platform,
    dst: Seq<char>,
    gateway: Seq<char>,
    interface_idx: Option<i32>,
) -> Result<Seq<Seq<char>>, RouteError> {
    if adding {
        add_args(platform, dst, gateway, interface_idx)
    } else {
        del_args(platform, dst, gateway)
    }
}

/// The arguments of the commands for all of `dsts`, in order; the error of
/// the first destination for which no command can be made.
pub open spec fn all_route_args(
    adding: bool,
    platform: Platform,
    dsts: Seq<Seq<char>>,
    gateway: Seq<char>,
    interface_idx: Option<i32>,
) -> Result<Seq<Seq<Seq<char>>>, RouteError>
    decreases dsts.len(),
{
    if dsts.len() == 0 {
        Ok(Seq::empty())
    } else {
        match all_route_args(adding, platform, dsts.drop_last(), gateway, interface_idx) {
            Ok(before) => match route_args(adding, platform, dsts.last(), gateway, interface_idx) {
                Ok(args) => Ok(before.push(args)),
                Err(e) => Err(e),
            },
            Err(e) => Err(e),
        }
    }
}

/// The program that changes the routing table.
pub open spec fn route_program(platform: Platform) -> Seq<char> {
    match platform {
        Platform::Linux => "ip"@,
        _ => "route"@,
    }
}

/// The arguments of each of `commands`.
pub open spec fn args_of(commands: Seq<RouteCommand>) -> Seq<Seq<Seq<char>>> {
    Seq::new(commands.len(), |i: int| texts(commands[i].args@))
}

/// Whether each of `commands` runs `program`.
pub open spec fn all_run(commands: Seq<RouteCommand>, program: Seq<char>) -> bool {
    forall|i: int| 0 <= i < commands.len() ==> (#[trigger] commands[i]).program@ == program
}

/// The maker of route commands for one operating system.
pub struct SysRoute {
    platform: Platform,
}

impl SysRoute {
    /// The operating system.
    pub closed spec fn platform(&self) -> Platform {
        self.platform
    }

    /// The maker of route commands for `platform`.
    pub fn new(platform: Platform) -> (r: Self)
        ensures
            r.platform() == platform,
    {
        SysRoute { platform }
    }

    /// The netmask of a prefix length in dotted-decimal text.
    pub fn prefix_to_netmask(prefix_len: u8) -> (r: Result<String, RouteError>)
        ensures
            match r {
                Ok(mask) => prefix_len <= 32 && mask@ == dotted(netmask(prefix_len)),
                Err(e) => prefix_len > 32 && e == RouteError::InvalidPrefixLength,
            },
    {
        if prefix_len > 32 {
            return Err(RouteError::InvalidPrefixLength);
        }
        let mask: u32 = if prefix_len == 0 {
            0
        } else {
            u32::MAX << ((32 - prefix_len) as u32)
        };
        Ok(ipv4_text(mask))
    }

    /// Splits `network/prefix` into the network and the netmask of the
    /// prefix length. The text must hold one slash, and a number from 0 to
    /// 32 behind it.
    pub fn parse_cidr(&self, cidr: &str) -> (r: Result<(String, String), RouteError>)
        ensures
            match r {
                Ok((network, mask)) => cidr_words(cidr@) == Ok::<
                    (Seq<char>, Seq<char>),
                    RouteError,
                >((network@, mask@)),
                Err(e) => cidr_words(cidr@) == Err::<(Seq<char>, Seq<char>), RouteError>(e),
            },
    {
        let n = cidr.unicode_len();
        let i = match find_char(cidr, '/', 0) {
            Some(i) => i,
            None => {
                return Err(RouteError::InvalidCidr);
            },
        };
        if let Some(j) = find_char(cidr, '/', i + 1) {
            assert forall|k: int| !only_slash_at(cidr@, k) by {
                if only_slash_at(cidr@, k) {
                    if k == i as int {
                        assert(cidr@[j as int] != '/');
                    } else {
                        assert(cidr@[i as int] != '/');
                    }
                }
            }
            return Err(RouteError::InvalidCidr);
        }
        proof {
            assert(only_slash_at(cidr@, i as int));
            let k = the_slash(cidr@);
            assert(only_slash_at(cidr@, k));
            if k != i as int {
                assert(cidr@[i as int] != '/');
            }
        }
        let network = slice_chars(cidr, 0, i);
        let prefix_text = slice_chars(cidr, i + 1, n);
        let prefix = match parse_u8(prefix_text.as_str()) {
            Some(prefix) => prefix,
            None => {
                return Err(RouteError::InvalidPrefixLength);
            },
        };
        match Self::prefix_to_netmask(prefix) {
            Ok(mask) => Ok((network, mask)),
            Err(e) => Err(RouteError::InvalidPrefixLength),
        }
    }

    /// The command that adds a route to `dst` by `gateway`.
    pub fn add_route(&self, dst: &str, gateway: &str, interface_idx: Option<i32>) -> (r: Result<
        RouteCommand,
        RouteError,
    >)
        ensures
            match r {
                Ok(command) => command.program@ == route_program(self.platform()) && add_args(
                    self.platform(),
                    dst@,
                    gateway@,
                    interface_idx,
                ) == Ok::<Seq<Seq<char>>, RouteError>(texts(command.args@)),
                Err(e) => add_args(self.platform(), dst@, gateway@, interface_idx) == Err::<
                    Seq<Seq<char>>,
                    RouteError,
                >(e),
            },
    {
        let mut args: Vec<String> = Vec::new();
        let program = match self.platform {
            Platform::Linux => {
                args.push(String::from_str("route"));
                args.push(String::from_str("add"));
                args.push(String::from_str(dst));
                args.push(String::from_str("via"));
                args.push(String::from_str(gateway));
                String::from_str("ip")
            },
            Platform::MacOs => {
                args.push(String::from_str("-n"));
                args.push(String::from_str("add"));
                args.push(String::from_str("-net"));
                args.push(String::from_str(dst));
                args.push(String::from_str(gateway));
                String::from_str("route")
            },
            Platform::Windows => {
                let (network, mask) = match self.parse_cidr(dst) {
                    Ok(pair) => pair,
                    Err(e) => {
                        return Err(e);
                    },
                };
                args.push(String::from_str("add"));
                args.push(network);
                args.push(String::from_str("mask"));
                args.push(mask);
                args.push(String::from_str(gateway));
                if let Some(idx) = interface_idx {
                    args.push(String::from_str("if"));
                    args.push(i32_to_string(idx));
                }
                args.push(String::from_str("metric"));
                args.push(String::from_str("1"));
                String::from_str("route")
            },
        };
        assert(add_args(self.platform(), dst@, gateway@, interface_idx) is Ok);
        assert(texts(args@) =~= add_args(self.platform(), dst@, gateway@, interface_idx)->Ok_0);
        Ok(RouteCommand { program, args })
    }

    /// The command that deletes the route to `dst` by `gateway`.
    pub fn del_route(&self, dst: &str, gateway: &str, interface_idx: Option<i32>) -> (r: Result<
        RouteCommand,
        RouteError,
    >)
        ensures
            match r {
                Ok(command) => command.program@ == route_program(self.platform()) && del_args(
                    self.platform(),
                    dst@,
                    gateway@,
                ) == Ok::<Seq<Seq<char>>, RouteError>(texts(command.args@)),
                Err(e) => del_args(self.platform(), dst@, gateway@) == Err::<
                    Seq<Seq<char>>,
                    RouteError,
                >(e),
            },
    {
        let mut args: Vec<String> = Vec::new();
        let program = match self.platform {
            Platform::Linux => {
                args.push(String::from_str("route"));
                args.push(String::from_str("del"));
                args.push(String::from_str(dst));
                args.push(String::from_str("via"));
                args.push(String::from_str(gateway));
                String::from_str("ip")
            },
            Platform::MacOs => {
                args.push(String::from_str("-n"));
                args.push(String::from_str("delete"));
                args.push(String::from_str("-net"));
                args.push(String::from_str(dst));
                args.push(String::from_str(gateway));
                String::from_str("route")
            },
            Platform::Windows => {
                let (network, mask) = match self.parse_cidr(dst) {
                    Ok(pair) => pair,
                    Err(e) => {
                        return Err(e);
                    },
                };
                args.push(String::from_str("delete"));
                args.push(network);
                args.push(String::from_str("mask"));
                args.push(mask);
                String::from_str("route")
            },
        };
        assert(del_args(self.platform(), dst@, gateway@) is Ok);
        assert(texts(args@) =~= del_args(self.platform(), dst@, gateway@)->Ok_0);
        Ok(RouteCommand { program, args })
    }

    fn commands(
        &self,
        adding: bool,
        dsts: &Vec<String>,
        gateway: &String,
        interface_idx: Option<i32>,
    ) -> (r: Result<Vec<RouteCommand>, RouteError>)
        ensures
            match r {
                Ok(commands) => all_run(commands@, route_program(self.platform()))
                    && all_route_args(
                    adding,
                    self.platform(),
                    texts(dsts@),
                    gateway@,
                    interface_idx,
                ) == Ok::<Seq<Seq<Seq<char>>>, RouteError>(args_of(commands@)),
                Err(e) => all_route_args(
                    adding,
                    self.platform(),
                    texts(dsts@),
                    gateway@,
                    interface_idx,
                ) == Err::<Seq<Seq<Seq<char>>>, RouteError>(e),
            },
    {
        let mut out: Vec<RouteCommand> = Vec::new();
        let mut k: usize = 0;
        assert(texts(dsts@).take(0) =~= Seq::<Seq<char>>::empty());
        assert(args_of(out@) =~= Seq::<Seq<Seq<char>>>::empty());
        while k < dsts.len()
            invariant
                k <= dsts@.len(),
                all_run(out@, route_program(self.platform())),
                all_route_args(
                    adding,
                    self.platform(),
                    texts(dsts@).take(k as int),
                    gateway@,
                    interface_idx,
                ) == Ok::<Seq<Seq<Seq<char>>>, RouteError>(args_of(out@)),
            decreases dsts.len() - k,
        {
            proof {
                let next = texts(dsts@).take(k + 1);
                assert(next.drop_last() =~= texts(dsts@).take(k as int));
                assert(next.last() == dsts@[k as int]@);
            }
            let made = if adding {
                self.add_route(dsts[k].as_str(), gateway.as_str(), interface_idx)
            } else {
                self.del_route(dsts[k].as_str(), gateway.as_str(), interface_idx)
            };
            match made {
                Ok(command) => {
                    let ghost before = args_of(out@);
                    out.push(command);
                    assert(args_of(out@) =~= before.push(texts(command.args@)));
                },
                Err(e) => {
                    proof {
                        lemma_error_stays(
                            adding,
                            self.platform(),
                            texts(dsts@),
                            gateway@,
                            interface_idx,
                            k + 1,
                            e,
                        );
                    }
                    return Err(e);
                },
            }
            k += 1;
        }
        assert(texts(dsts@).take(k as int) =~= texts(dsts@));
        Ok(out)
    }

    /// The commands that add a route by `gateway` to each of `dsts`, in
    /// order. When no command can be made for one of them, none is given,
    /// and the error is that of the first such destination.
    pub fn add(&self, dsts: Vec<String>, gateway: String, interface_idx: Option<i32>) -> (r: Result<
        Vec<RouteCommand>,
        RouteError,
    >)
        ensures
            match r {
                Ok(commands) => all_run(commands@, route_program(self.platform()))
                    && all_route_args(
                    true,
                    self.platform(),
                    texts(dsts@),
                    gateway@,
                    interface_idx,
                ) == Ok::<Seq<Seq<Seq<char>>>, RouteError>(args_of(commands@)),
                Err(e) => all_route_args(
                    true,
                    self.platform(),
                    texts(dsts@),
                    gateway@,
                    interface_idx,
                ) == Err::<Seq<Seq<Seq<char>>>, RouteError>(e),
            },
    {
        self.commands(true, &dsts, &gateway, interface_idx)
    }

    /// The commands that delete the route by `gateway` to each of `dsts`,
    /// in order. When no command can be made for one of them, none is
    /// given, and the error is that of the first such destination.
    pub fn del(&self, dsts: Vec<String>, gateway: String, interface_idx: Option<i32>) -> (r: Result<
        Vec<RouteCommand>,
        RouteError,
    >)
        ensures
            match r {
                Ok(commands) => all_run(commands@, route_program(self.platform()))
                    && all_route_args(
                    false,
                    self.platform(),
                    texts(dsts@),
                    gateway@,
                    interface_idx,
                ) == Ok::<Seq<Seq<Seq<char>>>, RouteError>(args_of(commands@)),
                Err(e) => all_route_args(
                    false,
                    self.platform(),
                    texts(dsts@),
                    gateway@,
                    interface_idx,
                ) == Err::<Seq<Seq<Seq<char>>>, RouteError>(e),
            },
    {
        self.commands(false, &dsts, &gateway, interface_idx)
    }
}

/// Once the commands for the first `k` destinations fail, those for all
/// destinations fail in the same way.
proof fn lemma_error_stays(
    adding: bool,
    platform: Platform,
    dsts: Seq<Seq<char>>,
    gateway: Seq<char>,
    interface_idx: Option<i32>,
    k: int,
    e: RouteError,
)
    requires
        0 <= k <= dsts.len(),
        all_route_args(adding, platform, dsts.take(k), gateway, interface_idx) == Err::<
            Seq<Seq<Seq<char>>>,
            RouteError,
        >(e),
    ensures
        all_route_args(adding, platform, dsts, gateway, interface_idx) == Err::<
            Seq<Seq<Seq<char>>>,
            RouteError,
        >(e),
    decreases dsts.len() - k,
{
    if k == dsts.len() {
        assert(dsts.take(k) =~= dsts);
    } else {
        let next = dsts.take(k + 1);
        assert(next.drop_last() =~= dsts.take(k));
        lemma_error_stays(adding, platform, dsts, gateway, interface_idx, k + 1, e);
    }
}

} // verus!
