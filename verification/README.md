# energy_price

Electricity import and export price slots in pence per kWh, a read-only client of the Axle
event feed, and the dispatch policy of its events, with the behaviour stated in contracts and
proved with Verus.

- `src/` is the library. It decides: which slots a range has, what an event adds to them, who
  controls the inverter and until when, which energy counts towards a reward, which rate the
  savings are compared with.
- `app/` is the host around it: requests over HTTP, settings in TOML, state files, log lines,
  and the figures that need floating-point arithmetic.
- `tests/` runs the library.

## Values

Instants are `utc::UtcTime`, on the calendar and with the leap seconds of `chrono`. Prices,
powers and energies are `binary64::Binary64`: double precision numbers by their bit patterns,
which the library compares and hands on. Sums and products of them are worked out by the host;
the library says of what. JSON answers of the supplier come in as `json::Json`.

## Deciding and saving

Where a decision has to outlive a crash, it comes in two steps. The first changes the state
and says what has to be saved; the second takes the outcome of the save and gives the decision
only if that went well. `DispatchService::poll` goes on with `poll_saved` and `Polled::settle`,
`DispatchService::control` with `control_saved`.

## Laws

Public proof functions whose names begin with `law_` state what holds across operations: a
handover is never repeated, whatever the feed says and whenever the host restarts; an event
that is announced is protected; a limit once reached latches for the event; no energy is
counted twice, outside the event or across a missing reading, over any sequence of answers,
readings and restarts; a price holds until its pause is over, and an outage changes none.
