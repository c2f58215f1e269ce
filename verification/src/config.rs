//! The configuration of a shadow terminal.

use crate::errors::ConfigError;
use crate::interpreter::allocates;
use crate::interpreter::LINE_BYTES;
use vstd::prelude::*;

verus! {

/// One more than the highest screen that a terminal can be given.
pub const HEIGHTS: usize = 65_536;

/// How a shadow terminal is made. Nothing changes it afterwards.
#[derive(Debug)]
pub struct Config {
    /// Columns of the terminal.
    pub width: u16,
    /// Rows of the terminal.
    pub height: u16,
    /// The command that runs in the pseudo-terminal, usually the user's shell.
    pub command: Vec<String>,
    /// How many rows of history are kept.
    pub scrollback_size: usize,
    /// How many rows one scroll request moves the view.
    pub scrollback_step: usize,
}

impl Config {
    /// Every field is greater than zero; for the command: it has a first word.
    pub open spec fn valid(&self) -> bool {
        &&& self.width > 0
        &&& self.height > 0
        &&& self.command@.len() > 0
        &&& self.scrollback_size > 0
        &&& self.scrollback_step > 0
    }

    /// The interpreter can ask for room for the history under a screen of any height:
    /// in bytes it stays within what one allocation can be.
    pub open spec fn fits(&self) -> bool {
        allocates(HEIGHTS as nat, self.scrollback_size as nat)
    }

    /// Computes `fits`.
    pub fn check_fits(&self) -> (fits: bool)
        ensures
            fits == self.fits(),
    {
        match self.scrollback_size.checked_add(HEIGHTS) {
            Some(rows) => match rows.checked_mul(LINE_BYTES) {
                Some(bytes) => bytes <= isize::MAX as usize,
                None => false,
            },
            None => false,
        }
    }

    /// The first field, in the order of the declaration, that is not greater than zero.
    pub open spec fn first_fault(&self) -> Option<ConfigError> {
        if self.width == 0 {
            Some(ConfigError::ZeroWidth)
        } else if self.height == 0 {
            Some(ConfigError::ZeroHeight)
        } else if self.command@.len() == 0 {
            Some(ConfigError::EmptyCommand)
        } else if self.scrollback_size == 0 {
            Some(ConfigError::ZeroScrollbackSize)
        } else if self.scrollback_step == 0 {
            Some(ConfigError::ZeroScrollbackStep)
        } else {
            None
        }
    }

    /// Accepts a configuration whose fields are all greater than zero, and names the
    /// first field that is not.
    pub fn validate(&self) -> (checked: Result<(), ConfigError>)
        ensures
            checked is Ok <==> self.valid(),
            checked is Err ==> self.first_fault() == Some(checked->Err_0),
    {
        if self.width == 0 {
            Err(ConfigError::ZeroWidth)
        } else if self.height == 0 {
            Err(ConfigError::ZeroHeight)
        } else if self.command.len() == 0 {
            Err(ConfigError::EmptyCommand)
        } else if self.scrollback_size == 0 {
            Err(ConfigError::ZeroScrollbackSize)
        } else if self.scrollback_step == 0 {
            Err(ConfigError::ZeroScrollbackStep)
        } else {
            Ok(())
        }
    }
}

impl Default for Config {
    /// A terminal of 100 columns by 30 rows that runs `bash`, keeps 1000 rows of history
    /// and scrolls by 5.
    fn default() -> (config: Self)
        ensures
            config.width == 100,
            config.height == 30,
            config.command@.len() == 1,
            config.command@[0]@ == "bash"@,
            config.scrollback_size == 1000,
            config.scrollback_step == 5,
            config.valid(),
            config.fits(),
    {
        let mut command: Vec<String> = Vec::new();
        command.push("bash".to_owned());
        Config { width: 100, height: 30, command, scrollback_size: 1000, scrollback_step: 5 }
    }
}

} // verus!
