//! Console prompts: reading a line from the player and printing a line
//! back. The menus themselves live outside the library; these are the
//! primitives they share.
use vstd::prelude::*;
use std::io::Write;

use crate::USE_ANY_KEY_LABEL;

verus! {

/// How reading the player's input can fail.
#[derive(Debug)]
pub enum ProcessingError {
    ConvertStringToIntError,
    IoReadError,
}

/// Relies on std::io::Stdin::read_line: reads one line from standard
/// input; a read fault becomes `IoReadError`. Nothing is promised of the
/// text the player typed.
#[verifier::external_body]
pub fn get_input_string() -> Result<String, ProcessingError> {
    let mut input = String::new();
    match std::io::stdin().read_line(&mut input) {
        Ok(_) => Ok(input.trim().to_string()),
        Err(_) => Err(ProcessingError::IoReadError),
    }
}

/// Relies on std::io::Stdout and writeln: prints the line to standard
/// output, ignoring a write fault.
#[verifier::external_body]
pub fn output(line: String) {
    let mut handle = std::io::stdout();
    let _ = writeln!(handle, "{}", line);
}

/// Wait for the player to press return, discarding whatever was typed.
pub fn get_input_nothing() {
    let _ = get_input_string();
}

/// Prompt the player to press return, when the label is enabled.
pub fn say_any_key() {
    if USE_ANY_KEY_LABEL {
        output("Press return to continue.".to_owned());
    }
}

} // verus!
