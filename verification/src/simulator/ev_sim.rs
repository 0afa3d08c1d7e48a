//! The simulated EV: connection, authorization and charging decisions.
use vstd::prelude::*;
use crate::core_types::{Timestamp, now};
use crate::simulator::SimulatorError;
use crate::simulator::config::EvSimConfig;
use crate::text::{has_prefix, str_starts_with};

verus! {

/// State of the simulated EV.
#[derive(Debug, Clone)]
pub struct EvState {
    /// Plugged in.
    pub connected: bool,
    /// Authorized.
    pub authorized: bool,
    /// Charging.
    pub charging: bool,
    /// Feeding the grid.
    pub v2g_active: bool,
    /// Power being drawn (W).
    pub current_power: u64,
    /// Energy received so far (Wh).
    pub total_energy_delivered: u64,
    /// State of charge (%).
    pub soc: u8,
    /// Last error.
    pub error: Option<String>,
    /// Time of the last change.
    pub last_update: Timestamp,
}

/// The ISO 15118 side of the EV.
#[derive(Debug, Clone)]
pub struct Iso15118Handler {
    /// Whether the handshake is done.
    pub handshake_complete: bool,
    /// Whether the contract certificate is valid.
    pub certificate_valid: bool,
    /// Contract identifier.
    pub contract_id: Option<String>,
}

impl Iso15118Handler {
    /// A handler before the handshake, with a valid certificate and no contract.
    pub fn new() -> (h: Self)
        ensures
            !h.handshake_complete,
            h.certificate_valid,
            h.contract_id is None,
    {
        Iso15118Handler { handshake_complete: false, certificate_valid: true, contract_id: None }
    }

    /// Performs the handshake; the simulated handshake always succeeds.
    pub fn handshake(&self) -> (r: Result<(), String>)
        ensures
            r is Ok,
    {
        Ok(())
    }

    /// Authenticates with a certificate; the simulation accepts every one.
    pub fn plug_and_charge(&self, certificate: &str) -> (r: Result<bool, String>)
        ensures
            r == Ok::<bool, String>(true),
    {
        Ok(true)
    }
}

/// Whether a token authorizes charging: it starts with "RFID-" or "V2G-".
pub open spec fn token_accepted(token: Seq<char>) -> bool {
    has_prefix(token, "RFID-"@) || has_prefix(token, "V2G-"@)
}

/// The simulated EV, apart from its battery.
#[derive(Debug)]
pub struct EvSimulator {
    /// Configuration.
    pub config: EvSimConfig,
    /// State.
    pub state: EvState,
    /// ISO 15118 handler, when Plug & Charge is supported.
    pub iso15118: Option<Iso15118Handler>,
}

impl EvSimulator {
    /// An unplugged, unauthorized, idle EV at its initial state of charge,
    /// with an ISO 15118 handler when it supports Plug & Charge.
    pub fn new(config: EvSimConfig) -> (r: Result<EvSimulator, SimulatorError>)
        ensures
            r matches Ok(ev) && {
                &&& ev.config == config
                &&& !ev.state.connected && !ev.state.authorized && !ev.state.charging && !ev.state.v2g_active
                &&& ev.state.current_power == 0 && ev.state.total_energy_delivered == 0
                &&& ev.state.soc == config.initial_soc
                &&& ev.state.error is None
                &&& (ev.iso15118 is Some <==> config.supports_plug_and_charge)
            },
    {
        let iso15118 = if config.supports_plug_and_charge {
            Some(Iso15118Handler::new())
        } else {
            None
        };
        Ok(EvSimulator {
            config,
            state: EvState {
                connected: false,
                authorized: false,
                charging: false,
                v2g_active: false,
                current_power: 0,
                total_energy_delivered: 0,
                soc: config.initial_soc,
                error: None,
                last_update: now(),
            },
            iso15118,
        })
    }

    /// Plugs the EV in and, with Plug & Charge, performs the handshake.
    pub fn connect(&mut self) -> (r: Result<(), SimulatorError>)
        ensures
            r is Ok,
            *final(self) == (EvSimulator {
                state: EvState { connected: true, last_update: final(self).state.last_update, ..old(self).state },
                ..*old(self)
            }),
    {
        self.state.connected = true;
        self.state.last_update = now();
        match &self.iso15118 {
            Some(iso) => match iso.handshake() {
                Ok(()) => {},
                Err(e) => {
                    return Err(SimulatorError::Simulation(e));
                },
            },
            None => {},
        }
        Ok(())
    }

    /// Unplugs the EV: it is no longer authorized, charging or feeding the grid.
    pub fn disconnect(&mut self) -> (r: Result<(), SimulatorError>)
        ensures
            r is Ok,
            *final(self) == (EvSimulator {
                state: EvState {
                    connected: false,
                    authorized: false,
                    charging: false,
                    v2g_active: false,
                    current_power: 0,
                    last_update: final(self).state.last_update,
                    ..old(self).state
                },
                ..*old(self)
            }),
    {
        self.state.connected = false;
        self.state.authorized = false;
        self.state.charging = false;
        self.state.v2g_active = false;
        self.state.current_power = 0;
        self.state.last_update = now();
        Ok(())
    }

    /// Presents a token; the EV is authorized exactly when the token is accepted.
    pub fn authorize(&mut self, token: &str) -> (r: Result<bool, SimulatorError>)
        ensures
            r == Ok::<bool, SimulatorError>(token_accepted(token@)),
            *final(self) == (EvSimulator {
                state: EvState {
                    authorized: token_accepted(token@),
                    last_update: final(self).state.last_update,
                    ..old(self).state
                },
                ..*old(self)
            }),
    {
        let authorized = str_starts_with(token, "RFID-") || str_starts_with(token, "V2G-");
        self.state.authorized = authorized;
        self.state.last_update = now();
        Ok(authorized)
    }

    /// Starts charging; refused when the EV is not connected, not authorized
    /// or already charging, in that order.
    pub fn start_charging(&mut self) -> (r: Result<(), SimulatorError>)
        ensures
            r is Ok <==> (old(self).state.connected && old(self).state.authorized && !old(self).state.charging),
            r is Ok ==> final(self).state.charging,
            r matches Err(SimulatorError::Simulation(m)) ==> m@ == (if !old(self).state.connected {
                "EV not connected"@
            } else if !old(self).state.authorized {
                "EV not authorized"@
            } else {
                "EV already charging"@
            }),
            r is Err ==> r matches Err(SimulatorError::Simulation(_)),
            r is Err ==> *final(self) == *old(self),
            r is Ok ==> *final(self) == (EvSimulator {
                state: EvState { charging: true, last_update: final(self).state.last_update, ..old(self).state },
                ..*old(self)
            }),
    {
        if !self.state.connected {
            return Err(SimulatorError::Simulation("EV not connected".to_owned()));
        }
        if !self.state.authorized {
            return Err(SimulatorError::Simulation("EV not authorized".to_owned()));
        }
        if self.state.charging {
            return Err(SimulatorError::Simulation("EV already charging".to_owned()));
        }
        self.state.charging = true;
        self.state.last_update = now();
        Ok(())
    }

    /// Stops charging.
    pub fn stop_charging(&mut self) -> (r: Result<(), SimulatorError>)
        ensures
            r is Ok,
            *final(self) == (EvSimulator {
                state: EvState { charging: false, last_update: final(self).state.last_update, ..old(self).state },
                ..*old(self)
            }),
    {
        self.state.charging = false;
        self.state.last_update = now();
        Ok(())
    }

    /// The power (W) and energy (Wh) of one second of charging: the EV's
    /// maximum power capped at 22 kW, and a 3600th of it rounded down.
    pub fn charge_step(&self) -> (r: (u64, u64))
        ensures
            r.0 == (if self.config.max_power < 22000 { self.config.max_power } else { 22000 }),
            r.1 == r.0 / 3600,
    {
        let power = if self.config.max_power < 22000 { self.config.max_power } else { 22000 };
        let energy_wh = (power * 1) / 3600;
        (power, energy_wh)
    }

    /// Records one second of charging after the battery took `energy_wh`:
    /// the new state of charge, the energy added to the total, the power
    /// drawn, and the end of charging when the battery is full.
    pub fn record_charge_step(&mut self, power: u64, energy_wh: u64, soc: u8, battery_full: bool)
        requires
            old(self).state.total_energy_delivered + energy_wh <= u64::MAX,
        ensures
            *final(self) == (EvSimulator {
                state: EvState {
                    soc: soc,
                    total_energy_delivered: (old(self).state.total_energy_delivered + energy_wh) as u64,
                    current_power: power,
                    charging: old(self).state.charging && !battery_full,
                    ..old(self).state
                },
                ..*old(self)
            }),
    {
        self.state.soc = soc;
        self.state.total_energy_delivered = self.state.total_energy_delivered + energy_wh;
        self.state.current_power = power;
        if battery_full {
            self.state.charging = false;
        }
    }

    /// Notes that the state was brought up to date now.
    pub fn touch(&mut self)
        ensures
            *final(self) == (EvSimulator {
                state: EvState { last_update: final(self).state.last_update, ..old(self).state },
                ..*old(self)
            }),
    {
        self.state.last_update = now();
    }
}


/// The tokens the simulated EV accepts: every token that begins with
/// "RFID-" and every token that begins with "V2G-", and no other.
pub proof fn law_accepted_tokens(token: Seq<char>)
    ensures
        has_prefix(token, "RFID-"@) ==> token_accepted(token),
        has_prefix(token, "V2G-"@) ==> token_accepted(token),
        !has_prefix(token, "RFID-"@) && !has_prefix(token, "V2G-"@) ==> !token_accepted(token),
{
}

} // verus!
