use vstd::prelude::*;
use vstd::string::StringExecFns;

verus! {

/// A per-user registry value to write: the key, the value's name (`None` for the
/// key's default value) and the data.
#[derive(Debug)]
pub struct RegistryWrite {
    pub key: String,
    pub value_name: Option<String>,
    pub data: String,
}

impl View for RegistryWrite {
    type V = (Seq<char>, Option<Seq<char>>, Seq<char>);

    open spec fn view(&self) -> Self::V {
        let name = match self.value_name {
            Some(n) => Some(n@),
            None => None,
        };
        (self.key@, name, self.data@)
    }
}

/// The key under which the `glosc` scheme is declared for the current user.
pub open spec fn protocol_key() -> Seq<char> {
    "HKCU\\Software\\Classes\\glosc"@
}

/// The key whose default value says how a `glosc://` link is opened.
pub open spec fn open_command_key() -> Seq<char> {
    "HKCU\\Software\\Classes\\glosc\\shell\\open\\command"@
}

/// The description stored as the protocol key's default value.
pub open spec fn protocol_description() -> Seq<char> {
    "URL:Glosc Protocol"@
}

/// The name of the empty value that marks the key as a URL protocol.
pub open spec fn url_protocol_marker() -> Seq<char> {
    "URL Protocol"@
}

/// `"<exe>" "%1"`: the executable, quoted so that spaces survive, and the link
/// as its one argument.
pub open spec fn quoted_open_command(exe: Seq<char>) -> Seq<char> {
    seq!['"'] + exe + "\" \"%1\""@
}

/// The writes that map `glosc://...` to this executable, in the order they are made.
pub open spec fn registration_writes(exe: Seq<char>) -> Seq<(Seq<char>, Option<Seq<char>>, Seq<char>)> {
    seq![
        (protocol_key(), None, protocol_description()),
        (protocol_key(), Some(url_protocol_marker()), Seq::empty()),
        (open_command_key(), None, quoted_open_command(exe)),
    ]
}

/// The open-command value is the path between a pair of quotes, then ` "%1"`:
/// a path with spaces in it comes back out unchanged from between the quotes.
pub proof fn lemma_open_command_round_trip(exe: Seq<char>)
    ensures
        quoted_open_command(exe).len() == exe.len() + 7,
        quoted_open_command(exe)[0] == '"',
        quoted_open_command(exe).subrange(1, exe.len() + 1int) == exe,
        quoted_open_command(exe).subrange(exe.len() + 1int, exe.len() + 7int) == "\" \"%1\""@,
{
    let q = quoted_open_command(exe);
    reveal_strlit("\" \"%1\"");
    assert(q.subrange(1, exe.len() + 1int) =~= exe);
    assert(q.subrange(exe.len() + 1int, exe.len() + 7int) =~= "\" \"%1\""@);
}

/// The arguments of the registry tool that perform one write, overwriting
/// whatever was there.
pub open spec fn write_args(w: (Seq<char>, Option<Seq<char>>, Seq<char>)) -> Seq<Seq<char>> {
    match w.1 {
        None => seq!["add"@, w.0, "/ve"@, "/d"@, w.2, "/f"@],
        Some(name) => seq!["add"@, w.0, "/v"@, name, "/d"@, w.2, "/f"@],
    }
}

/// The open-command value for the executable at `exe`.
pub fn open_command_value(exe: &str) -> (r: String)
    ensures
        r@ == quoted_open_command(exe@),
{
    let mut r = String::from_str("\"");
    proof { reveal_strlit("\""); }
    r.append(exe);
    r.append("\" \"%1\"");
    r
}

impl RegistryWrite {
    /// The arguments of the registry tool that perform this write.
    pub fn command_args(&self) -> (r: Vec<String>)
        ensures
            r@.map_values(|s: String| s@) == write_args(self@),
    {
        let mut r: Vec<String> = Vec::new();
        r.push(String::from_str("add"));
        r.push(self.key.clone());
        match &self.value_name {
            None => {
                r.push(String::from_str("/ve"));
            },
            Some(name) => {
                r.push(String::from_str("/v"));
                r.push(name.clone());
            },
        }
        r.push(String::from_str("/d"));
        r.push(self.data.clone());
        r.push(String::from_str("/f"));
        assert(r@.map_values(|s: String| s@) =~= write_args(self@));
        r
    }
}

/// How the `glosc` scheme is tied to this application on the platform at hand.
#[derive(Clone, Copy, Debug, PartialEq, Eq, Structural)]
pub enum ProtocolRegistrar {
    /// The platform maps schemes to programs some other way: nothing to write.
    Unsupported,
    /// The platform keeps that mapping in a per-user registry.
    PerUserRegistry,
}

impl ProtocolRegistrar {
    pub fn for_platform(registry_based: bool) -> (r: ProtocolRegistrar)
        ensures
            registry_based ==> r == ProtocolRegistrar::PerUserRegistry,
            !registry_based ==> r == ProtocolRegistrar::Unsupported,
    {
        if registry_based {
            ProtocolRegistrar::PerUserRegistry
        } else {
            ProtocolRegistrar::Unsupported
        }
    }

    /// The writes to make at startup, given the running executable's path if it
    /// could be resolved as text.
    ///
    /// Without a usable path nothing is written at all. Each write is best effort:
    /// one that fails does not keep the next from being tried.
    pub fn plan(&self, exe: Option<&str>) -> (r: Vec<RegistryWrite>)
        ensures
            match exe {
                Some(path) if *self == ProtocolRegistrar::PerUserRegistry && path@.len() > 0 => {
                    &&& r@.len() == registration_writes(path@).len()
                    &&& forall|i: int|
                        0 <= i < r@.len() ==> #[trigger] r@[i]@ == registration_writes(path@)[i]
                },
                _ => r@.len() == 0,
            },
    {
        let mut r: Vec<RegistryWrite> = Vec::new();
        if let ProtocolRegistrar::Unsupported = *self {
            return r;
        }
        let path = match exe {
            Some(p) => p,
            None => return r,
        };
        if path.is_empty() {
            return r;
        }
        r.push(RegistryWrite {
            key: String::from_str("HKCU\\Software\\Classes\\glosc"),
            value_name: None,
            data: String::from_str("URL:Glosc Protocol"),
        });
        r.push(RegistryWrite {
            key: String::from_str("HKCU\\Software\\Classes\\glosc"),
            value_name: Some(String::from_str("URL Protocol")),
            data: String::new(),
        });
        r.push(RegistryWrite {
            key: String::from_str("HKCU\\Software\\Classes\\glosc\\shell\\open\\command"),
            value_name: None,
            data: open_command_value(path),
        });
        r
    }
}

/// The program that performs registry writes.
pub fn registry_tool() -> (r: String)
    ensures
        r@ == "reg"@,
{
    String::from_str("reg")
}

} // verus!
