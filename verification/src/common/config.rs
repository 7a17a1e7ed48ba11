use vstd::prelude::*;

verus! {

/// The least view or simulation distance that a configuration may ask for.
pub const MIN_DISTANCE: u8 = 2;

/// The greatest view or simulation distance that a configuration may ask for.
pub const MAX_DISTANCE: u8 = 32;

#[derive(Debug, Clone, Copy, PartialEq, Eq, Structural)]
pub enum ConfigError {
    InvalidViewDistance(u8),
    InvalidSimulationDistance(u8),
    InvalidMaxPlayers(i32),
}

#[derive(Debug, Clone)]
pub struct Server {
    pub address: String,
    pub motd: String,
    pub view_distance: u8,
    pub simulation_distance: u8,
}

#[derive(Debug, Clone)]
pub struct Players {
    pub max_players: i32,
}

#[derive(Debug, Clone)]
pub struct Config {
    pub server: Server,
    pub players: Players,
}

/// Whether a distance lies within the range that the server supports.
pub open spec fn distance_in_range(distance: u8) -> bool {
    MIN_DISTANCE <= distance <= MAX_DISTANCE
}

impl Config {
    /// The first fault of the configuration, if it has one: the view distance
    /// is looked at first, then the simulation distance, then the player cap.
    pub open spec fn fault(&self) -> Option<ConfigError> {
        if !distance_in_range(self.server.view_distance) {
            Some(ConfigError::InvalidViewDistance(self.server.view_distance))
        } else if !distance_in_range(self.server.simulation_distance) {
            Some(ConfigError::InvalidSimulationDistance(self.server.simulation_distance))
        } else if self.players.max_players <= 0 {
            Some(ConfigError::InvalidMaxPlayers(self.players.max_players))
        } else {
            None
        }
    }

    pub fn validate(&self) -> (r: Result<(), ConfigError>)
        ensures
            r == match self.fault() {
                Some(e) => Err::<(), ConfigError>(e),
                None => Ok::<(), ConfigError>(()),
            },
    {
        if self.server.view_distance < MIN_DISTANCE || self.server.view_distance > MAX_DISTANCE {
            return Err(ConfigError::InvalidViewDistance(self.server.view_distance));
        }
        if self.server.simulation_distance < MIN_DISTANCE || self.server.simulation_distance
            > MAX_DISTANCE {
            return Err(ConfigError::InvalidSimulationDistance(self.server.simulation_distance));
        }
        if self.players.max_players <= 0 {
            return Err(ConfigError::InvalidMaxPlayers(self.players.max_players));
        }
        Ok(())
    }
}

} // verus!
