use vstd::prelude::*;
use vstd::string::StringExecFns;
use crate::address::{address_text, assert_addr, has_address_shape, parsed_octets};
use crate::pattern::{accepts, regex_accepts};

verus! {

/// Shape of a device class: `0x` and six hex digits.
pub const CLASS_PATTERN: &'static str = r"^0x[0-9a-fA-F]{6}$";

/// Settings of a local Bluetooth adapter that the attack changes. Each method
/// runs the tool commands that the matching builder below describes.
pub trait Configuration {
    fn disable_ssp(&self);

    fn enable_ssp(&self);

    fn set_name(&self, name: String);

    fn set_class(&self, class: String);

    fn set_address(&self, address: String);

    fn disable_linksec(&self);

    fn enable_linksec(&self);
}

/// A tool to run and its arguments.
#[derive(Debug)]
pub struct ToolCommand {
    pub program: String,
    pub args: Vec<String>,
}

/// The texts of a list of strings.
pub open spec fn texts(v: Seq<String>) -> Seq<Seq<char>> {
    v.map_values(|s: String| s@)
}

impl ToolCommand {
    /// The command as texts: the program, then each argument.
    pub open spec fn words(&self) -> Seq<Seq<char>> {
        seq![self.program@] + texts(self.args@)
    }
}

/// Whether `input` is a device class written as `0x` and six hex digits.
pub fn is_valid_class_format(input: &str) -> (r: bool)
    ensures
        r == regex_accepts(CLASS_PATTERN@, input@),
{
    accepts(CLASS_PATTERN, input)
}

pub(crate) fn command_of(program: &str, args: &[&str]) -> (r: ToolCommand)
    ensures
        r.program@ == program@,
        r.args@.len() == args@.len(),
        forall|k: int| 0 <= k < args@.len() ==> (#[trigger] r.args@[k])@ == args@[k]@,
{
    let mut v: Vec<String> = Vec::new();
    let mut i: usize = 0;
    while i < args.len()
        invariant
            i <= args@.len(),
            v@.len() == i,
            forall|k: int| 0 <= k < i ==> (#[trigger] v@[k])@ == args@[k]@,
        decreases args@.len() - i,
    {
        v.push(String::from_str(args[i]));
        i = i + 1;
    }
    ToolCommand { program: String::from_str(program), args: v }
}

/// The words of a command built from literal texts.
pub open spec fn words_of(program: &str, args: Seq<&str>) -> Seq<Seq<char>> {
    seq![program@] + args.map_values(|a: &str| a@)
}

pub(crate) proof fn lemma_words(c: ToolCommand, program: &str, args: Seq<&str>)
    requires
        c.program@ == program@,
        c.args@.len() == args.len(),
        forall|k: int| 0 <= k < args.len() ==> (#[trigger] c.args@[k])@ == args[k]@,
    ensures
        c.words() == words_of(program, args),
{
    assert(c.words() =~= words_of(program, args));
}

/// `hciconfig <iface> name <name>`: renames the adapter.
pub fn name_command(iface: &str, name: &str) -> (r: ToolCommand)
    ensures
        r.words() == words_of("hciconfig", seq![iface, "name", name]),
{
    let r = command_of("hciconfig", &[iface, "name", name]);
    proof {
        lemma_words(r, "hciconfig", seq![iface, "name", name]);
    }
    r
}

/// The two `btmgmt` commands, run through `sudo`, that switch Secure Simple
/// Pairing: first the io capability (1 to enable, 3 to disable), then `ssp`.
pub fn ssp_commands(iface: &str, enable: bool) -> (r: (ToolCommand, ToolCommand))
    ensures
        r.0.words() == words_of(
            "sudo",
            seq!["btmgmt", "--index", iface, "io-cap", if enable { "1" } else { "3" }],
        ),
        r.1.words() == words_of(
            "sudo",
            seq!["btmgmt", "--index", iface, "ssp", if enable { "on" } else { "off" }],
        ),
{
    let cap = if enable { "1" } else { "3" };
    let mode = if enable { "on" } else { "off" };
    let a = command_of("sudo", &["btmgmt", "--index", iface, "io-cap", cap]);
    let b = command_of("sudo", &["btmgmt", "--index", iface, "ssp", mode]);
    proof {
        lemma_words(a, "sudo", seq!["btmgmt", "--index", iface, "io-cap", cap]);
        lemma_words(b, "sudo", seq!["btmgmt", "--index", iface, "ssp", mode]);
    }
    (a, b)
}

/// The `btmgmt` command, run through `sudo`, that switches link level security.
pub fn linksec_command(iface: &str, enable: bool) -> (r: ToolCommand)
    ensures
        r.words() == words_of(
            "sudo",
            seq!["btmgmt", "--index", iface, "linksec", if enable { "true" } else { "false" }],
        ),
{
    let flag = if enable { "true" } else { "false" };
    let r = command_of("sudo", &["btmgmt", "--index", iface, "linksec", flag]);
    proof {
        lemma_words(r, "sudo", seq!["btmgmt", "--index", iface, "linksec", flag]);
    }
    r
}

/// `hciconfig <iface> class <class>` for a well-formed class; `None` otherwise.
pub fn class_command(iface: &str, class: &str) -> (r: Option<ToolCommand>)
    ensures
        r is Some <==> regex_accepts(CLASS_PATTERN@, class@),
        r matches Some(c) ==> c.words() == words_of("hciconfig", seq![iface, "class", class]),
{
    if is_valid_class_format(class) {
        let r = command_of("hciconfig", &[iface, "class", class]);
        proof {
            lemma_words(r, "hciconfig", seq![iface, "class", class]);
        }
        Some(r)
    } else {
        None
    }
}

/// `bdaddr -i <iface> <address>` with the address written in upper case, for a
/// well-formed address; `None` otherwise.
pub fn address_command(iface: &str, address: &str) -> (r: Option<ToolCommand>)
    ensures
        r is Some <==> regex_accepts(crate::address::ADDRESS_PATTERN@, address@)
            && has_address_shape(address@),
        r matches Some(c) ==> c.words() == seq!["bdaddr"@, "-i"@, iface@, address_text(
            parsed_octets(address@),
            ':',
        )],
{
    match assert_addr(address) {
        Ok(a) => {
            let text = a.to_text();
            let t = text.as_str();
            let r = command_of("bdaddr", &["-i", iface, t]);
            proof {
                lemma_words(r, "bdaddr", seq!["-i", iface, t]);
                assert(words_of("bdaddr", seq!["-i", iface, t]) =~= seq![
                    "bdaddr"@,
                    "-i"@,
                    iface@,
                    address_text(parsed_octets(address@), ':'),
                ]);
            }
            Some(r)
        },
        Err(_) => None,
    }
}

} // verus!
