//! The configuration: which device to read, which broker to talk to, and
//! under which identifier.

use vstd::prelude::*;
use vstd::string::*;

use crate::digits::{check_numbers_fit, numbers_fit};
use crate::encoding::{debug_path, document_members, json_document, members_of, path_debug};
use crate::payload::Members;
use crate::text::{join2, join3};

verus! {

/// The configuration as mathematical sequences.
pub struct OptionsView {
    pub device_name: Seq<char>,
    pub broker_url: Seq<char>,
    pub instance_id: Seq<char>,
}

/// The configuration of the program.
#[derive(Debug)]
pub struct Options {
    /// Path of the device that the meter is read from.
    pub device_name: String,
    /// Address of the MQTT broker, such as `tcp://host:1883`.
    pub broker_url: String,
    /// Identifier of this meter among others.
    pub instance_id: String,
}

impl View for Options {
    type V = OptionsView;

    open spec fn view(&self) -> OptionsView {
        OptionsView {
            device_name: self.device_name@,
            broker_url: self.broker_url@,
            instance_id: self.instance_id@,
        }
    }
}

/// A result as mathematical values.
pub open spec fn options_view(result: Result<Options, String>) -> Result<OptionsView, Seq<char>> {
    match result {
        Ok(options) => Ok(options@),
        Err(message) => Err(message@),
    }
}

/// What reading a file gave, as mathematical values.
pub open spec fn contents_view(contents: Result<String, String>) -> Result<Seq<char>, Seq<char>> {
    match contents {
        Ok(text) => Ok(text@),
        Err(cause) => Err(cause@),
    }
}

/// The message for a command line that does not name one configuration file.
pub open spec fn usage_message(program: Seq<char>) -> Seq<char> {
    "Usage: "@ + program + " /path/to/d0_device"@
}

/// The message for a configuration file that could not be read.
pub open spec fn unreadable_message(cause: Seq<char>) -> Seq<char> {
    "Cannot read configuration: "@ + cause
}

/// The message for a configuration file that is not JSON.
pub open spec fn malformed_message(cause: Seq<char>) -> Seq<char> {
    "Cannot parse configuration: "@ + cause
}

/// The message for a configuration file with a fraction that the parser
/// cannot count.
pub open spec fn uncountable_fraction_message() -> Seq<char> {
    malformed_message("A fraction has more than 32768 digits"@)
}

/// The message for a configuration without the key `key`.
pub open spec fn missing_key_message(key: Seq<char>, file_path: Seq<char>) -> Seq<char> {
    "Cannot find key '"@ + key + "' in "@ + path_debug(file_path)
}

/// The position of the first member from `start` on that has the key `key`,
/// or the number of members if there is none.
pub open spec fn position_from(members: Members, key: Seq<char>, start: int) -> int
    decreases members.len() - start,
{
    if start < 0 || start >= members.len() {
        members.len() as int
    } else if members[start].0 == key {
        start
    } else {
        position_from(members, key, start + 1)
    }
}

/// The text of the member `key`, if there is one.
pub open spec fn member_text(members: Members, key: Seq<char>) -> Option<Seq<char>> {
    let position = position_from(members, key, 0);
    if position < members.len() {
        Some(members[position].1)
    } else {
        None
    }
}

/// The configuration that the members of a JSON document hold. The keys
/// `d0_device`, `broker_url` and `identifier` are looked for in this order,
/// and the first that is missing is reported.
pub open spec fn config_from_members(file_path: Seq<char>, members: Members) -> Result<
    OptionsView,
    Seq<char>,
> {
    match member_text(members, "d0_device"@) {
        None => Err(missing_key_message("d0_device"@, file_path)),
        Some(device_name) => match member_text(members, "broker_url"@) {
            None => Err(missing_key_message("broker_url"@, file_path)),
            Some(broker_url) => match member_text(members, "identifier"@) {
                None => Err(missing_key_message("identifier"@, file_path)),
                Some(instance_id) => Ok(
                    OptionsView {
                        device_name: device_name,
                        broker_url: broker_url,
                        instance_id: instance_id,
                    },
                ),
            },
        },
    }
}

/// The configuration that the file at `file_path` gives, where `contents` is
/// what reading it gave. Every text goes to the parser but one that holds,
/// outside a string, a number that begins with `0.` and has more digits in
/// its fraction than the parser can count (see `numbers_fit`).
pub open spec fn config_from_file(
    file_path: Seq<char>,
    contents: Result<Seq<char>, Seq<char>>,
) -> Result<OptionsView, Seq<char>> {
    match contents {
        Err(cause) => Err(unreadable_message(cause)),
        Ok(text) => if !numbers_fit(text) {
            Err(uncountable_fraction_message())
        } else {
            match json_document(text) {
                Err(cause) => Err(malformed_message(cause)),
                Ok(members) => config_from_members(file_path, members),
            }
        },
    }
}

/// Looks up the member `key`.
fn find_member(entries: &Vec<(String, String)>, key: &str) -> (found: Option<String>)
    ensures
        match found {
            Some(text) => member_text(members_of(entries@), key@) == Some(text@),
            None => member_text(members_of(entries@), key@) is None,
        },
{
    let wanted = key.to_owned();
    let ghost members = members_of(entries@);
    let mut i: usize = 0;
    while i < entries.len()
        invariant
            i <= entries.len(),
            members == members_of(entries@),
            wanted@ == key@,
            position_from(members, key@, 0) == position_from(members, key@, i as int),
        decreases entries.len() - i,
    {
        if entries[i].0 == wanted {
            return Some(entries[i].1.clone());
        }
        i += 1;
    }
    None
}

/// The text of the member `key`, or the message that it is missing.
fn require_member(file_path: &str, entries: &Vec<(String, String)>, key: &str) -> (found:
    Result<String, String>)
    ensures
        match found {
            Ok(text) => member_text(members_of(entries@), key@) == Some(text@),
            Err(message) => member_text(members_of(entries@), key@) is None && message@
                == missing_key_message(key@, file_path@),
        },
{
    match find_member(entries, key) {
        Some(text) => Ok(text),
        None => {
            let mut message = join3("Cannot find key '", key, "' in ");
            let shown = debug_path(file_path);
            message.append(shown.as_str());
            Err(message)
        },
    }
}

/// Takes the configuration from the members of a JSON document, each given
/// as its key and its text. `file_path` names the file in the messages.
pub fn options_from_members(file_path: &str, entries: &Vec<(String, String)>) -> (result: Result<
    Options,
    String,
>)
    ensures
        options_view(result) == config_from_members(file_path@, members_of(entries@)),
{
    let device_name = match require_member(file_path, entries, "d0_device") {
        Ok(text) => text,
        Err(message) => {
            return Err(message);
        },
    };
    let broker_url = match require_member(file_path, entries, "broker_url") {
        Ok(text) => text,
        Err(message) => {
            return Err(message);
        },
    };
    let instance_id = match require_member(file_path, entries, "identifier") {
        Ok(text) => text,
        Err(message) => {
            return Err(message);
        },
    };
    Ok(Options { device_name: device_name, broker_url: broker_url, instance_id: instance_id })
}

/// Takes the configuration from the file at `file_path`. `contents` is what
/// reading that file gave: its text, or why it could not be read.
pub fn read_config(file_path: &str, contents: Result<String, String>) -> (result: Result<
    Options,
    String,
>)
    ensures
        options_view(result) == config_from_file(file_path@, contents_view(contents)),
{
    let text = match contents {
        Ok(text) => text,
        Err(cause) => {
            return Err(join2("Cannot read configuration: ", cause.as_str()));
        },
    };
    if !check_numbers_fit(text.as_str()) {
        return Err(
            join2("Cannot parse configuration: ", "A fraction has more than 32768 digits"),
        );
    }
    match document_members(text.as_str()) {
        Ok(entries) => options_from_members(file_path, &entries),
        Err(cause) => Err(join2("Cannot parse configuration: ", cause.as_str())),
    }
}

/// Reads the command line: the program's name and the path of the
/// configuration file, which is returned.
pub fn parse_args(args: Vec<String>) -> (result: Result<String, String>)
    requires
        args.len() >= 1,
    ensures
        match result {
            Ok(file_path) => args.len() == 2 && file_path@ == args[1]@,
            Err(message) => args.len() != 2 && message@ == usage_message(args[0]@),
        },
{
    if args.len() != 2 {
        return Err(join3("Usage: ", args[0].as_str(), " /path/to/d0_device"));
    }
    Ok(args[1].clone())
}

} // verus!
