//! How the remote desktop client reads its command line and picks the VM
//! and the bus it connects to.

use vstd::prelude::*;

verus! {

/// The options the client starts with.
#[derive(Debug)]
pub struct AppOptions {
    /// The VM to open, by name.
    pub vm_name: Option<String>,
    /// The D-Bus address to connect to, in place of the session bus.
    pub address: Option<String>,
    /// List the VMs on the bus and quit.
    pub list: bool,
}

impl Default for AppOptions {
    fn default() -> (r: Self)
        ensures
            r.vm_name is None,
            r.address is None,
            !r.list,
    {
        AppOptions { vm_name: None, address: None, list: false }
    }
}

/// Folds the parsed command-line options into `opts`.
///
/// `version` tells whether `--version` was given, `address` whether
/// `--address` was given and, if so, its value when it is a string,
/// `list` whether `--list` was given, and `vm_name` the first remaining
/// argument when there is one that is a string.
///
/// With `--version` nothing is recorded and the result is `0`: the client
/// prints its version and exits. Otherwise the result is `-1`, so that the
/// application goes on: a given `--address` replaces the address (by nothing
/// when its value is not a string), `--list` switches listing on and never
/// off, and the VM name is always replaced.
pub fn handle_local_options(
    opts: &mut AppOptions,
    version: bool,
    address: Option<Option<String>>,
    list: bool,
    vm_name: Option<String>,
) -> (r: i32)
    ensures
        version ==> r == 0 && *final(opts) == *old(opts),
        !version ==> {
            &&& r == -1
            &&& final(opts).address == match address {
                Some(a) => a,
                None => old(opts).address,
            }
            &&& final(opts).list == (old(opts).list || list)
            &&& final(opts).vm_name == vm_name
        },
{
    if version {
        return 0;
    }
    if let Some(a) = address {
        opts.address = a;
    }
    if list {
        opts.list = true;
    }
    opts.vm_name = vm_name;
    -1
}

/// The line printed for `--version`.
pub fn version_line(version: &str) -> (line: String)
    ensures
        line@ == "Version: "@ + version@,
{
    let mut line = String::from_str("Version: ");
    line.append(version);
    line
}

/// The bus the client connects to.
#[derive(Debug)]
pub enum BusTarget {
    /// The bus at this D-Bus address.
    Address(String),
    /// The session bus.
    Session,
}

/// The bus to connect to: the given address, else the session bus.
pub fn bus_target(opts: &AppOptions) -> (r: BusTarget)
    ensures
        match opts.address {
            Some(a) => r matches BusTarget::Address(b) && b@ == a@,
            None => r is Session,
        },
{
    match &opts.address {
        Some(a) => BusTarget::Address(a.clone()),
        None => BusTarget::Session,
    }
}

/// The line printed for one VM when listing: its name and its bus name.
pub fn vm_list_line(name: &str, destination: &str) -> (line: String)
    ensures
        line@ == name@ + " (at "@ + destination@ + ")"@,
{
    let mut line = String::from_str(name);
    line.append(" (at ");
    line.append(destination);
    line.append(")");
    line
}

/// `i` is the first position of `wanted` among `names`.
pub open spec fn is_first_match(names: Seq<String>, wanted: Seq<char>, i: int) -> bool {
    &&& 0 <= i < names.len()
    &&& names[i]@ == wanted
    &&& forall|j: int| 0 <= j < i ==> (#[trigger] names[j])@ != wanted
}

/// `wanted` stands among `names`.
pub open spec fn has_name(names: Seq<String>, wanted: Seq<char>) -> bool {
    exists|j: int| 0 <= j < names.len() && (#[trigger] names[j])@ == wanted
}

/// The position of the VM named `wanted` among `names`.
pub fn find_vm(names: &Vec<String>, wanted: &String) -> (r: Option<usize>)
    ensures
        match r {
            Some(i) => is_first_match(names@, wanted@, i as int),
            None => !has_name(names@, wanted@),
        },
{
    let mut i: usize = 0;
    while i < names.len()
        invariant
            i <= names.len(),
            forall|j: int| 0 <= j < i ==> (#[trigger] names@[j])@ != wanted@,
        decreases names.len() - i,
    {
        if names[i] == *wanted {
            return Some(i);
        }
        i = i + 1;
    }
    None
}

/// The VM the client opens, as a position among the `names` on the bus.
///
/// Without a VM name the client opens the default display (`Ok(None)`).
/// With one, it opens the first VM of that name, and a name that is not
/// on the bus is refused with the message the client stops on.
pub fn vm_destination(names: &Vec<String>, vm_name: &Option<String>) -> (r: Result<Option<usize>, String>)
    ensures
        match vm_name {
            None => r == Ok::<Option<usize>, String>(None),
            Some(n) => if has_name(names@, n@) {
                r matches Ok(Some(i)) && is_first_match(names@, n@, i as int)
            } else {
                r matches Err(msg) && msg@ == "Can't find VM name: "@ + n@
            },
        },
{
    match vm_name {
        None => Ok(None),
        Some(n) => match find_vm(names, n) {
            Some(i) => Ok(Some(i)),
            None => {
                let mut msg = String::from_str("Can't find VM name: ");
                msg.append(n.as_str());
                Err(msg)
            },
        },
    }
}

} // verus!
