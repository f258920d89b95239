//! Opening a remote editor session on a container, and remembering the
//! workspace folder once the editor has started.
//!
//! The library says which command to run and what follows from its outcome.
//! Running the command and writing the store to disk are left to the caller.

use crate::bindings::{upserted, BindingStore};
use crate::labels::Labels;
use crate::text::texts;
use vstd::prelude::*;
use vstd::utf8::encode_utf8;

verus! {

/// A request to open `workspace_folder` in a container of a pod.
#[derive(Debug)]
pub struct OpenRequest {
    pub context: String,
    pub namespace: String,
    pub pod_name: String,
    pub container_name: String,
    pub labels: Labels,
    pub workspace_folder: String,
}

/// The command that opens the editor.
#[derive(Debug)]
pub struct EditorCommand {
    pub program: String,
    pub arguments: Vec<String>,
}

/// How the editor command ended.
#[derive(Debug)]
pub enum ProcessOutcome {
    /// The command could not be started.
    LaunchFailed { message: String },
    /// The command ran and exited; `code` is `None` where it gave no exit code.
    Exited { code: Option<i32> },
}

/// Why a session was not opened, or not remembered.
#[derive(Debug)]
pub enum OpenError {
    Launch { message: String },
    ExitCode { code: Option<i32> },
    NotPersisted { message: String },
}

/// The name by which the editor finds the container.
pub open spec fn container_identifier(
    context: Seq<char>,
    pod_name: Seq<char>,
    namespace: Seq<char>,
    container_name: Seq<char>,
) -> Seq<char> {
    "k8s-container+context="@ + context + "+podname="@ + pod_name + "+namespace="@ + namespace
        + "+name="@ + container_name
}

/// An ASCII letter or digit.
pub open spec fn is_alphanumeric(byte: u8) -> bool {
    ||| 0x30 <= byte <= 0x39
    ||| 0x41 <= byte <= 0x5a
    ||| 0x61 <= byte <= 0x7a
}

/// The upper-case hexadecimal digit for a value below 16.
pub open spec fn hex_digit(nibble: u8) -> char {
    if nibble < 10 {
        (0x30 + nibble) as u8 as char
    } else {
        (0x41 + nibble - 10) as u8 as char
    }
}

/// A letter or digit stands for itself; any other byte is written as `%` and
/// its two hexadecimal digits.
pub open spec fn escaped_byte(byte: u8) -> Seq<char> {
    if is_alphanumeric(byte) {
        seq![byte as char]
    } else {
        seq!['%', hex_digit(byte / 16), hex_digit(byte % 16)]
    }
}

/// The bytes, each escaped, one after the other.
pub open spec fn escaped(bytes: Seq<u8>) -> Seq<char>
    decreases bytes.len(),
{
    if bytes.len() == 0 {
        Seq::empty()
    } else {
        escaped(bytes.drop_last()) + escaped_byte(bytes.last())
    }
}

/// The percent-encoding of the UTF-8 bytes of `text` in which only ASCII
/// letters and digits are left as they are.
pub open spec fn percent_encoded(text: Seq<char>) -> Seq<char> {
    escaped(encode_utf8(text))
}

/// The address under which the editor opens `workspace_folder` in the
/// container. The folder is appended as it is.
pub open spec fn remote_uri(
    context: Seq<char>,
    pod_name: Seq<char>,
    namespace: Seq<char>,
    container_name: Seq<char>,
    workspace_folder: Seq<char>,
) -> Seq<char> {
    "vscode-remote://"@ + percent_encoded(
        container_identifier(context, pod_name, namespace, container_name),
    ) + workspace_folder
}

/// What the caller is told for an error.
pub open spec fn error_message(error: OpenError) -> Seq<char> {
    match error {
        OpenError::Launch { message } => "Failed to open remote container: "@ + message@,
        OpenError::ExitCode { code } => "Failed to open remote container"@,
        OpenError::NotPersisted { message } => message@,
    }
}

/// `percent_encoding::utf8_percent_encode` with the set `NON_ALPHANUMERIC`,
/// written out as a string. The crate walks the UTF-8 bytes of the input and
/// writes every byte that is not an ASCII letter or digit as `%` and two
/// upper-case hexadecimal digits; the contract says so and is not proved.
#[verifier::external_body]
fn percent_encode(text: &str) -> (encoded: String)
    ensures
        encoded@ == percent_encoded(text@),
{
    percent_encoding::utf8_percent_encode(text, percent_encoding::NON_ALPHANUMERIC).to_string()
}

/// The name by which the editor finds the container.
pub fn container_identifier_of(
    context: &str,
    pod_name: &str,
    namespace: &str,
    container_name: &str,
) -> (identifier: String)
    ensures
        identifier@ == container_identifier(context@, pod_name@, namespace@, container_name@),
{
    let mut identifier = "k8s-container+context=".to_owned();
    identifier.append(context);
    identifier.append("+podname=");
    identifier.append(pod_name);
    identifier.append("+namespace=");
    identifier.append(namespace);
    identifier.append("+name=");
    identifier.append(container_name);
    identifier
}

impl OpenRequest {
    /// The address that the editor is given for this request.
    pub fn remote_uri(&self) -> (uri: String)
        ensures
            uri@ == remote_uri(
                self.context@,
                self.pod_name@,
                self.namespace@,
                self.container_name@,
                self.workspace_folder@,
            ),
    {
        let identifier = container_identifier_of(
            self.context.as_str(),
            self.pod_name.as_str(),
            self.namespace.as_str(),
            self.container_name.as_str(),
        );
        let encoded = percent_encode(identifier.as_str());
        let mut uri = "vscode-remote://".to_owned();
        uri.append(encoded.as_str());
        uri.append(self.workspace_folder.as_str());
        uri
    }

    /// The command that opens the editor on the remote folder: `code` with
    /// the address as its one folder argument.
    pub fn editor_command(&self) -> (command: EditorCommand)
        ensures
            command.program@ == "code"@,
            texts(command.arguments@) == seq![
                "--folder-uri"@,
                remote_uri(
                    self.context@,
                    self.pod_name@,
                    self.namespace@,
                    self.container_name@,
                    self.workspace_folder@,
                ),
            ],
    {
        let mut arguments: Vec<String> = Vec::new();
        arguments.push("--folder-uri".to_owned());
        arguments.push(self.remote_uri());
        assert(texts(arguments@) =~= seq![
            "--folder-uri"@,
            remote_uri(
                self.context@,
                self.pod_name@,
                self.namespace@,
                self.container_name@,
                self.workspace_folder@,
            ),
        ]);
        EditorCommand { program: "code".to_owned(), arguments }
    }

    /// What follows from the outcome of the editor command.
    ///
    /// Only an exit with code 0 counts as success: the folder is then stored
    /// for the container. After any other outcome the store is as it was.
    pub fn record_outcome(&self, store: &mut BindingStore, outcome: ProcessOutcome) -> (result:
        Result<(), OpenError>)
        ensures
            match outcome {
                ProcessOutcome::Exited { code: Some(0) } => {
                    &&& result is Ok
                    &&& final(store)@ == upserted(
                        old(store)@,
                        self.context@,
                        self.namespace@,
                        self.container_name@,
                        self.labels@,
                        self.workspace_folder@,
                    )
                },
                ProcessOutcome::Exited { code } => {
                    &&& result == Err::<(), OpenError>(OpenError::ExitCode { code })
                    &&& final(store)@ == old(store)@
                },
                ProcessOutcome::LaunchFailed { message } => {
                    &&& result == Err::<(), OpenError>(OpenError::Launch { message })
                    &&& final(store)@ == old(store)@
                },
            },
    {
        match outcome {
            ProcessOutcome::LaunchFailed { message } => Err(OpenError::Launch { message }),
            ProcessOutcome::Exited { code } => {
                let succeeded = match code {
                    Some(value) => value == 0,
                    None => false,
                };
                if succeeded {
                    store.upsert(
                        self.context.as_str(),
                        self.namespace.as_str(),
                        self.container_name.as_str(),
                        &self.labels,
                        self.workspace_folder.as_str(),
                    );
                    Ok(())
                } else {
                    Err(OpenError::ExitCode { code })
                }
            },
        }
    }
}

/// The result of opening a session once the store was written: a write that
/// failed is an error of its own.
pub fn conclude(persisted: Result<(), String>) -> (result: Result<(), OpenError>)
    ensures
        match persisted {
            Ok(_) => result is Ok,
            Err(message) => result == Err::<(), OpenError>(OpenError::NotPersisted { message }),
        },
{
    match persisted {
        Ok(_) => Ok(()),
        Err(message) => Err(OpenError::NotPersisted { message }),
    }
}

impl OpenError {
    /// What the caller is told.
    pub fn message(&self) -> (message: String)
        ensures
            message@ == error_message(*self),
    {
        match self {
            OpenError::Launch { message } => {
                let mut text = "Failed to open remote container: ".to_owned();
                text.append(message.as_str());
                text
            },
            OpenError::ExitCode { code } => "Failed to open remote container".to_owned(),
            OpenError::NotPersisted { message } => message.clone(),
        }
    }
}

} // verus!
