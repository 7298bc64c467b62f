//! The device handle and its register-access and codec-level operations.
//!
//! Every accessor issues fresh bus transactions through the owned transport
//! and propagates the transport's error unchanged at the first failure. The
//! contracts speak of the transport's ghost transaction history: which
//! registers are touched, in what order, and what was decoded from or encoded
//! into each.

use vstd::prelude::*;

use crate::bus::Bus;
use crate::bus::BusHistory;
use crate::bus::BusOp;
use crate::bus::op_ok;
use crate::codec::bcd_to_bin;
use crate::codec::bin_to_bcd;
use crate::codec::bcd_decode;
use crate::codec::bcd_encode;
use crate::codec::lemma_bcd_round_trip;
use crate::time::DS3231Time;

verus! {

/// The fixed 7-bit bus address of the device.
pub const DEVICE_ADDR: u8 = 0x68;

/// The device's register map: each register is one byte at a fixed address.
#[derive(Clone, Copy, PartialEq, Eq, Structural)]
enum DS3231Regs {
    Seconds,
    Minutes,
    Hours,
    Day,
    Date,
    MonthCentury,
    Year,
    Alrm1Secs,
    Alrm1Minutes,
    Alrm1Hours,
    Alrm1DayDate,
    Alrm2Minutes,
    Alrm2Hours,
    Alrm2DayDate,
    Control,
    ControlStatus,
    AgingOff,
    TempMsb,
    TempLsb,
}

impl DS3231Regs {
    /// The one-byte address of this register.
    spec fn addr_spec(self) -> u8 {
        match self {
            DS3231Regs::Seconds => 0x00,
            DS3231Regs::Minutes => 0x01,
            DS3231Regs::Hours => 0x02,
            DS3231Regs::Day => 0x03,
            DS3231Regs::Date => 0x04,
            DS3231Regs::MonthCentury => 0x05,
            DS3231Regs::Year => 0x06,
            DS3231Regs::Alrm1Secs => 0x07,
            DS3231Regs::Alrm1Minutes => 0x08,
            DS3231Regs::Alrm1Hours => 0x09,
            DS3231Regs::Alrm1DayDate => 0x0a,
            DS3231Regs::Alrm2Minutes => 0x0b,
            DS3231Regs::Alrm2Hours => 0x0c,
            DS3231Regs::Alrm2DayDate => 0x0d,
            DS3231Regs::Control => 0x0e,
            DS3231Regs::ControlStatus => 0x0f,
            DS3231Regs::AgingOff => 0x10,
            DS3231Regs::TempMsb => 0x11,
            DS3231Regs::TempLsb => 0x12,
        }
    }

    /// Returns the one-byte address of this register.
    #[verifier::when_used_as_spec(addr_spec)]
    fn addr(self) -> (a: u8)
        ensures
            a == self.addr_spec(),
    {
        match self {
            DS3231Regs::Seconds => 0x00,
            DS3231Regs::Minutes => 0x01,
            DS3231Regs::Hours => 0x02,
            DS3231Regs::Day => 0x03,
            DS3231Regs::Date => 0x04,
            DS3231Regs::MonthCentury => 0x05,
            DS3231Regs::Year => 0x06,
            DS3231Regs::Alrm1Secs => 0x07,
            DS3231Regs::Alrm1Minutes => 0x08,
            DS3231Regs::Alrm1Hours => 0x09,
            DS3231Regs::Alrm1DayDate => 0x0a,
            DS3231Regs::Alrm2Minutes => 0x0b,
            DS3231Regs::Alrm2Hours => 0x0c,
            DS3231Regs::Alrm2DayDate => 0x0d,
            DS3231Regs::Control => 0x0e,
            DS3231Regs::ControlStatus => 0x0f,
            DS3231Regs::AgingOff => 0x10,
            DS3231Regs::TempMsb => 0x11,
            DS3231Regs::TempLsb => 0x12,
        }
    }
}

/// Whether `op` is a single-register read of the register at `reg`: a
/// combined transaction that writes the one-byte register address to the
/// device and reads one byte back.
pub open spec fn is_reg_read(op: BusOp, reg: u8) -> bool {
    match op {
        BusOp::WriteRead { addr, data, response, .. } => {
            &&& addr == DEVICE_ADDR
            &&& data == seq![reg]
            &&& response.len() == 1
        },
        BusOp::Write { .. } => false,
    }
}

/// The byte a single-register read returned.
pub open spec fn read_byte(op: BusOp) -> u8 {
    match op {
        BusOp::WriteRead { response, .. } => response[0],
        BusOp::Write { .. } => 0,
    }
}

/// The two bytes of the `i`-th write transaction `set_time` issues for the
/// record `t`: the register address, then the value — the seconds, minutes
/// and hours packed as BCD, the weekday passed through unmodified.
pub open spec fn set_time_frame(t: DS3231Time, i: int) -> Seq<u8> {
    if i == 0 {
        seq![0x00u8, bin_to_bcd(t.secs)]
    } else if i == 1 {
        seq![0x01u8, bin_to_bcd(t.mins)]
    } else if i == 2 {
        seq![0x02u8, bin_to_bcd(t.hours)]
    } else {
        seq![0x03u8, t.wday]
    }
}

/// Writing a record and reading it back reproduces the four overlapping
/// fields: for a record within the documented field ranges, decoding the
/// value byte of each write transaction `set_time` issues — as `get_time`
/// decodes the byte a register read returns — yields the field that was
/// written, the first three through the BCD codec and the weekday verbatim.
pub proof fn lemma_time_round_trip(t: DS3231Time)
    requires
        t.secs <= 59,
        t.mins <= 59,
        t.hours <= 23,
    ensures
        bcd_to_bin(set_time_frame(t, 0)[1]) == t.secs,
        bcd_to_bin(set_time_frame(t, 1)[1]) == t.mins,
        bcd_to_bin(set_time_frame(t, 2)[1]) == t.hours,
        set_time_frame(t, 3)[1] == t.wday,
{
    lemma_bcd_round_trip(t.secs);
    lemma_bcd_round_trip(t.mins);
    lemma_bcd_round_trip(t.hours);
}

/// Device descriptor: owns exactly one transport capability instance and
/// holds no other state.
pub struct DS3231<S> {
    i2c: S,
}

impl<S: Bus> DS3231<S> {
    /// The transactions this handle's transport has issued, oldest first.
    pub closed spec fn history(&self) -> BusHistory {
        self.i2c.history()
    }

    /// Creates a new device descriptor owning the given transport.
    pub fn new(i2c: S) -> (d: DS3231<S>)
        ensures
            d.history() == i2c.history(),
    {
        DS3231 { i2c }
    }

    /// Reads one register: a single combined transaction writing the register
    /// address and reading one byte back.
    fn get_reg(&mut self, reg: DS3231Regs) -> (r: Result<u8, S::Error>)
        ensures
            final(self).history() == old(self).history().push(final(self).history().last()),
            is_reg_read(final(self).history().last(), reg.addr_spec()),
            op_ok(final(self).history().last()) == (r is Ok),
            (r matches Ok(v) ==> v == read_byte(final(self).history().last())),
    {
        let addr_reg: [u8; 1] = [reg.addr()];
        let mut buf: [u8; 1] = [0];
        let res = self.i2c.write_read(
            DEVICE_ADDR,
            addr_reg.as_slice(),
            vstd::array::ref_mut_array_unsizing_coercion(&mut buf),
        );
        proof {
            assert(addr_reg@ =~= seq![reg.addr_spec()]);
        }
        match res {
            Ok(()) => Ok(buf[0]),
            Err(e) => Err(e),
        }
    }

    /// Reads the time from the device: one register read for each of the
    /// seconds, minutes, hours, weekday, day-of-month, month and year
    /// registers, in that fixed order, decoding every field but the weekday
    /// from packed BCD. Returns at the first failed read, with that error and
    /// no partial record; the weekday byte is passed through unmodified.
    pub fn get_time(&mut self) -> (r: Result<DS3231Time, S::Error>)
        ensures
            ({
                let h0 = old(self).history();
                let h = final(self).history();
                let b = h0.len() as int;
                let n = h.len() - h0.len();
                &&& h0.len() <= h.len()
                &&& h.subrange(0, b) == h0
                &&& 1 <= n <= 7
                &&& (forall|i: int| 0 <= i < n ==> is_reg_read(#[trigger] h[b + i], i as u8))
                &&& (forall|i: int| 0 <= i < n - 1 ==> op_ok(#[trigger] h[b + i]))
                &&& (r is Ok <==> n == 7 && op_ok(h.last()))
                &&& (r is Err ==> !op_ok(h.last()))
                &&& (r matches Ok(t) ==> {
                    &&& t.secs == bcd_to_bin(read_byte(h[b + 0]))
                    &&& t.mins == bcd_to_bin(read_byte(h[b + 1]))
                    &&& t.hours == bcd_to_bin(read_byte(h[b + 2]))
                    &&& t.wday == read_byte(h[b + 3])
                    &&& t.mday == bcd_to_bin(read_byte(h[b + 4]))
                    &&& t.month == bcd_to_bin(read_byte(h[b + 5]))
                    &&& t.year == bcd_to_bin(read_byte(h[b + 6]))
                })
            }),
    {
        let secs_val = match self.get_reg(DS3231Regs::Seconds) {
            Ok(v) => v,
            Err(e) => { return Err(e) },
        };
        let mins_val = match self.get_reg(DS3231Regs::Minutes) {
            Ok(v) => v,
            Err(e) => { return Err(e) },
        };
        let hours_val = match self.get_reg(DS3231Regs::Hours) {
            Ok(v) => v,
            Err(e) => { return Err(e) },
        };
        let wday_val = match self.get_reg(DS3231Regs::Day) {
            Ok(v) => v,
            Err(e) => { return Err(e) },
        };
        let mday_val = match self.get_reg(DS3231Regs::Date) {
            Ok(v) => v,
            Err(e) => { return Err(e) },
        };
        let month_val = match self.get_reg(DS3231Regs::MonthCentury) {
            Ok(v) => v,
            Err(e) => { return Err(e) },
        };
        let year_val = match self.get_reg(DS3231Regs::Year) {
            Ok(v) => v,
            Err(e) => { return Err(e) },
        };
        Ok(
            DS3231Time {
                secs: bcd_decode(secs_val),
                mins: bcd_decode(mins_val),
                hours: bcd_decode(hours_val),
                wday: wday_val,
                mday: bcd_decode(mday_val),
                month: bcd_decode(month_val),
                year: bcd_decode(year_val),
            },
        )
    }

    /// Writes one register: a single write transaction of exactly two bytes,
    /// the register address and then the value.
    fn set_reg(&mut self, reg: DS3231Regs, val: u8) -> (r: Result<(), S::Error>)
        ensures
            final(self).history() == old(self).history().push(
                (BusOp::Write {
                    addr: DEVICE_ADDR,
                    data: seq![reg.addr_spec(), val],
                    ok: r is Ok,
                }),
            ),
    {
        let write_cmd: [u8; 2] = [reg.addr(), val];
        let res = self.i2c.write(DEVICE_ADDR, write_cmd.as_slice());
        proof {
            assert(write_cmd@ =~= seq![reg.addr_spec(), val]);
        }
        match res {
            Ok(()) => Ok(()),
            Err(e) => Err(e),
        }
    }

    /// Sets the time: exactly four write transactions, in order, for the
    /// seconds, minutes, hours and weekday registers — the first three
    /// values packed as BCD, so that a written record reads back unchanged,
    /// and the weekday passed through unmodified. The day-of-month, month and
    /// year registers are not touched. Returns at the first failed write with
    /// that error; writes already issued stay applied.
    pub fn set_time(&mut self, time: &DS3231Time) -> (r: Result<(), S::Error>)
        requires
            time.secs <= 59,
            time.mins <= 59,
            time.hours <= 23,
        ensures
            ({
                let h0 = old(self).history();
                let h = final(self).history();
                let b = h0.len() as int;
                let n = h.len() - h0.len();
                &&& h0.len() <= h.len()
                &&& h.subrange(0, b) == h0
                &&& 1 <= n <= 4
                &&& (forall|i: int|
                    0 <= i < n ==> #[trigger] h[b + i] == (BusOp::Write {
                        addr: DEVICE_ADDR,
                        data: set_time_frame(*time, i),
                        ok: i < n - 1 || r is Ok,
                    }))
                &&& (r is Ok <==> n == 4 && op_ok(h.last()))
            }),
    {
        match self.set_reg(DS3231Regs::Seconds, bcd_encode(time.secs)) {
            Ok(()) => (),
            Err(e) => { return Err(e) },
        };
        match self.set_reg(DS3231Regs::Minutes, bcd_encode(time.mins)) {
            Ok(()) => (),
            Err(e) => { return Err(e) },
        };
        match self.set_reg(DS3231Regs::Hours, bcd_encode(time.hours)) {
            Ok(()) => (),
            Err(e) => { return Err(e) },
        };
        match self.set_reg(DS3231Regs::Day, time.wday) {
            Ok(()) => (),
            Err(e) => { return Err(e) },
        };
        Ok(())
    }

    /// Reads the temperature as a pair of its integer part and its
    /// fractional part in hundredths, one of 0, 25, 50 or 75: one read of
    /// the temperature MSB register, whose byte is returned as-is as the
    /// integer part, then one of the LSB register, whose top two bits scaled
    /// by twenty-five give the fraction. Returns at the first failed read
    /// with that error.
    pub fn get_temp(&mut self) -> (r: Result<(u8, u8), S::Error>)
        ensures
            ({
                let h0 = old(self).history();
                let h = final(self).history();
                let b = h0.len() as int;
                let n = h.len() - h0.len();
                &&& h0.len() <= h.len()
                &&& h.subrange(0, b) == h0
                &&& 1 <= n <= 2
                &&& is_reg_read(h[b], 0x11)
                &&& (n == 2 ==> op_ok(h[b]) && is_reg_read(h[b + 1], 0x12))
                &&& (r is Ok <==> n == 2 && op_ok(h.last()))
                &&& (r is Err ==> !op_ok(h.last()))
                &&& (r matches Ok(p) ==> p.0 == read_byte(h[b]) && p.1 == (read_byte(h[b + 1])
                    >> 6) * 25)
                &&& (r matches Ok(p) ==> p.1 == 0 || p.1 == 25 || p.1 == 50 || p.1 == 75)
            }),
    {
        let msb = match self.get_reg(DS3231Regs::TempMsb) {
            Ok(v) => v,
            Err(e) => { return Err(e) },
        };
        let lsb = match self.get_reg(DS3231Regs::TempLsb) {
            Ok(v) => v,
            Err(e) => { return Err(e) },
        };
        proof {
            assert(lsb >> 6 <= 3) by (bit_vector);
        }
        Ok((msb, (lsb >> 6) * 25))
    }
}

} // verus!
