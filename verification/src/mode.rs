//! Startup configuration: which passes a run applies.

use vstd::prelude::*;
use vstd::string::*;

verus! {

/// Entity count used where none is given.
pub const DEFAULT_OBJECT_COUNT: i32 = 10;

/// Iteration budget used where none is given.
pub const DEFAULT_UPDATE_ITERATIONS: i32 = 100_000;

/// Mode selector used where none is given: all passes.
pub const DEFAULT_TRANSFORM_TYPE: i32 = 0;

/// Which mutation passes run each tick.
#[derive(Clone, Copy, Debug, PartialEq, Eq, Structural)]
pub enum Mode {
    /// Rotation, scale and position passes, in that order.
    All,
    /// The rotation pass alone.
    RotationOnly,
    /// The scale pass alone.
    ScaleOnly,
    /// The position pass alone.
    TranslationOnly,
}

/// Why a configuration was rejected.
#[derive(Clone, Copy, Debug, PartialEq, Eq, Structural)]
pub enum ConfigError {
    /// The mode selector names no mode; it is carried along.
    InvalidMode(i32),
}

/// The startup configuration, after defaults.
#[derive(Clone, Copy, Debug, PartialEq, Eq, Structural)]
pub struct Config {
    /// Number of entities to generate besides the root.
    pub object_count: i32,
    /// Number of ticks before termination.
    pub update_iterations: i32,
    /// Mode selector: 0 all, 1 rotation, 2 scale, 3 translation.
    pub transform_type: i32,
}

impl Mode {
    /// The mode that a selector names, if any.
    pub open spec fn of_selector(selector: int) -> Option<Mode> {
        if selector == 0 {
            Some(Mode::All)
        } else if selector == 1 {
            Some(Mode::RotationOnly)
        } else if selector == 2 {
            Some(Mode::ScaleOnly)
        } else if selector == 3 {
            Some(Mode::TranslationOnly)
        } else {
            None
        }
    }

    /// The rotation pass runs in this mode.
    pub open spec fn spec_rotates(self) -> bool {
        self == Mode::All || self == Mode::RotationOnly
    }

    /// The scale pass runs in this mode.
    pub open spec fn spec_scales(self) -> bool {
        self == Mode::All || self == Mode::ScaleOnly
    }

    /// The position pass runs in this mode.
    pub open spec fn spec_translates(self) -> bool {
        self == Mode::All || self == Mode::TranslationOnly
    }

    /// The mode for a selector; any selector but 0, 1, 2, 3 is an error.
    pub fn from_selector(selector: i32) -> (r: Result<Mode, ConfigError>)
        ensures
            r == (match Mode::of_selector(selector as int) {
                Some(mode) => Ok::<Mode, ConfigError>(mode),
                None => Err::<Mode, ConfigError>(ConfigError::InvalidMode(selector)),
            }),
    {
        if selector == 0 {
            Ok(Mode::All)
        } else if selector == 1 {
            Ok(Mode::RotationOnly)
        } else if selector == 2 {
            Ok(Mode::ScaleOnly)
        } else if selector == 3 {
            Ok(Mode::TranslationOnly)
        } else {
            Err(ConfigError::InvalidMode(selector))
        }
    }

    /// Whether the rotation pass runs in this mode.
    #[verifier::when_used_as_spec(spec_rotates)]
    pub fn rotates(self) -> (r: bool)
        ensures
            r == self.spec_rotates(),
    {
        match self {
            Mode::All => true,
            Mode::RotationOnly => true,
            _ => false,
        }
    }

    /// Whether the scale pass runs in this mode.
    #[verifier::when_used_as_spec(spec_scales)]
    pub fn scales(self) -> (r: bool)
        ensures
            r == self.spec_scales(),
    {
        match self {
            Mode::All => true,
            Mode::ScaleOnly => true,
            _ => false,
        }
    }

    /// Whether the position pass runs in this mode.
    #[verifier::when_used_as_spec(spec_translates)]
    pub fn translates(self) -> (r: bool)
        ensures
            r == self.spec_translates(),
    {
        match self {
            Mode::All => true,
            Mode::TranslationOnly => true,
            _ => false,
        }
    }
}

impl ConfigError {
    /// The message shown to the user.
    pub fn message(&self) -> (text: String)
        ensures
            text@ == "Invalid transform type. Action cancelled."@,
    {
        String::from_str("Invalid transform type. Action cancelled.")
    }
}

impl Config {
    /// The configuration in which each value that is missing is replaced by
    /// its default.
    pub open spec fn resolved(
        object_count: Option<i32>,
        update_iterations: Option<i32>,
        transform_type: Option<i32>,
    ) -> Config {
        Config {
            object_count: match object_count {
                Some(n) => n,
                None => DEFAULT_OBJECT_COUNT,
            },
            update_iterations: match update_iterations {
                Some(n) => n,
                None => DEFAULT_UPDATE_ITERATIONS,
            },
            transform_type: match transform_type {
                Some(n) => n,
                None => DEFAULT_TRANSFORM_TYPE,
            },
        }
    }

    /// The configuration in which each value that is missing, because it was
    /// not given or was no integer, is replaced by its default.
    pub fn resolve(
        object_count: Option<i32>,
        update_iterations: Option<i32>,
        transform_type: Option<i32>,
    ) -> (config: Config)
        ensures
            config == Config::resolved(object_count, update_iterations, transform_type),
    {
        Config {
            object_count: match object_count {
                Some(n) => n,
                None => DEFAULT_OBJECT_COUNT,
            },
            update_iterations: match update_iterations {
                Some(n) => n,
                None => DEFAULT_UPDATE_ITERATIONS,
            },
            transform_type: match transform_type {
                Some(n) => n,
                None => DEFAULT_TRANSFORM_TYPE,
            },
        }
    }
}

} // verus!
