use vstd::prelude::*;

use crate::quantity::{text_value_or, Quantity, QUANTITY_SCALE, MAX_QUANTITY_MICROS};

verus! {

/// Cost units per whole currency unit: a cost is held exactly, as a whole
/// number of 10^-21 parts of the currency.
pub const COST_SCALE: i128 = 1_000_000_000_000_000_000_000;

/// Cost units in the product of a millionth of a kilogram and a millionth of
/// a currency unit per kilogram.
pub const MATERIAL_COST_FACTOR: i128 = 1_000_000_000;

/// Watt-hours in a kilowatt-hour.
pub const WATT_HOURS_PER_KWH: i128 = 1000;

/// The largest magnitude of a filament cost, in cost units: a million
/// kilograms at a million per kilogram.
pub const MAX_MATERIAL_COST_UNITS: i128 = 1_000_000_000_000_000_000_000_000_000_000_000;

/// The largest magnitude of an energy cost, in cost units: a million watts
/// for a million hours at a million per kilowatt-hour.
pub const MAX_ENERGY_COST_UNITS: i128 = 1_000_000_000_000_000_000_000_000_000_000_000_000;

/// An amount of money, held exactly in units of 10^-21 of the currency.
#[derive(Clone, Copy, Debug, PartialEq, Eq, Structural)]
pub struct Cost {
    units: i128,
}

impl View for Cost {
    type V = int;

    /// The amount in units of 10^-21 of the currency.
    closed spec fn view(&self) -> int {
        self.units as int
    }
}

impl Cost {
    /// The amount in units of 10^-21 of the currency (`COST_SCALE` per
    /// whole unit).
    pub fn units(&self) -> (r: i128)
        ensures
            r == self@,
    {
        self.units
    }
}

/// The cost of `mass` millionths of a kilogram of filament at `price`
/// millionths of a currency unit per kilogram, in cost units.
pub open spec fn material_cost_of(mass: int, price: int) -> int {
    mass * price * MATERIAL_COST_FACTOR
}

/// The cost of running a printer of `power` millionths of a watt for `time`
/// millionths of an hour at `price` millionths of a currency unit per
/// kilowatt-hour, in cost units. The watt-hours (`power * time`), divided by
/// `WATT_HOURS_PER_KWH` and multiplied by the price, come to exactly this
/// many 10^-21 parts of the currency.
pub open spec fn energy_cost_of(time: int, power: int, price: int) -> int {
    power * time * price
}

/// The parameters of one print job.
#[derive(Clone, Copy, Debug, PartialEq, Eq, Structural)]
pub struct PrintJobParameters {
    pub print_time_hours: Quantity,
    pub filament_mass_kg: Quantity,
    pub filament_price_per_kg: Quantity,
    pub printer_power_watts: Quantity,
    pub energy_price_per_kwh: Quantity,
}

/// The printer power assumed where none is given, in watts.
pub const DEFAULT_PRINTER_POWER_WATTS: i64 = 200;

impl PrintJobParameters {
    /// The values taken for inputs that are left empty or cannot be read:
    /// zero for all but the printer power, which is
    /// `DEFAULT_PRINTER_POWER_WATTS`.
    pub fn input_defaults() -> (r: PrintJobParameters)
        ensures
            r.print_time_hours@ == 0,
            r.filament_mass_kg@ == 0,
            r.filament_price_per_kg@ == 0,
            r.printer_power_watts@ == DEFAULT_PRINTER_POWER_WATTS * QUANTITY_SCALE,
            r.energy_price_per_kwh@ == 0,
    {
        PrintJobParameters {
            print_time_hours: Quantity::zero(),
            filament_mass_kg: Quantity::zero(),
            filament_price_per_kg: Quantity::zero(),
            printer_power_watts: Quantity::from_whole(DEFAULT_PRINTER_POWER_WATTS),
            energy_price_per_kwh: Quantity::zero(),
        }
    }

    /// Reads a job from the decimal texts of its five inputs; an input that
    /// is not a decimal number within range takes its value from `defaults`.
    pub fn from_text(
        print_time: &str,
        filament_amount: &str,
        filament_cost: &str,
        printer_wattage: &str,
        energy_cost: &str,
        defaults: &PrintJobParameters,
    ) -> (r: PrintJobParameters)
        ensures
            r.print_time_hours@ == text_value_or(print_time@, defaults.print_time_hours@),
            r.filament_mass_kg@ == text_value_or(filament_amount@, defaults.filament_mass_kg@),
            r.filament_price_per_kg@ == text_value_or(
                filament_cost@,
                defaults.filament_price_per_kg@,
            ),
            r.printer_power_watts@ == text_value_or(
                printer_wattage@,
                defaults.printer_power_watts@,
            ),
            r.energy_price_per_kwh@ == text_value_or(energy_cost@, defaults.energy_price_per_kwh@),
    {
        PrintJobParameters {
            print_time_hours: Quantity::parse_or(print_time, defaults.print_time_hours),
            filament_mass_kg: Quantity::parse_or(filament_amount, defaults.filament_mass_kg),
            filament_price_per_kg: Quantity::parse_or(filament_cost, defaults.filament_price_per_kg),
            printer_power_watts: Quantity::parse_or(printer_wattage, defaults.printer_power_watts),
            energy_price_per_kwh: Quantity::parse_or(energy_cost, defaults.energy_price_per_kwh),
        }
    }
}

/// The cost of one print job: material, energy, and their sum.
#[derive(Clone, Copy, Debug, PartialEq, Eq, Structural)]
pub struct CostBreakdown {
    pub material_cost: Cost,
    pub energy_cost: Cost,
    pub total_cost: Cost,
}

/// Whether `b` is the cost breakdown of the job `job`.
pub open spec fn is_breakdown_of(b: CostBreakdown, job: PrintJobParameters) -> bool {
    &&& b.material_cost@ == material_cost_of(job.filament_mass_kg@, job.filament_price_per_kg@)
    &&& b.energy_cost@ == energy_cost_of(
        job.print_time_hours@,
        job.printer_power_watts@,
        job.energy_price_per_kwh@,
    )
    &&& b.total_cost@ == b.material_cost@ + b.energy_cost@
}

/// The filament cost is the mass times the price per kilogram, exactly: in
/// whole currency units, `cost / COST_SCALE` equals
/// `(mass / QUANTITY_SCALE) * (price / QUANTITY_SCALE)`. No filament costs
/// nothing, whatever its price.
pub proof fn lemma_filament_cost_is_product(mass: Quantity, price: Quantity)
    ensures
        material_cost_of(mass@, price@) * ((QUANTITY_SCALE as int) * (QUANTITY_SCALE as int)) == (
        mass@ * price@) * (COST_SCALE as int),
        mass@ == 0 ==> material_cost_of(mass@, price@) == 0,
{
    let mp = mass@ * price@;
    assert(mp * (MATERIAL_COST_FACTOR as int) * ((QUANTITY_SCALE as int) * (QUANTITY_SCALE as int))
        == mp * (COST_SCALE as int)) by (nonlinear_arith);
    assert(mass@ == 0 ==> mp == 0);
}

/// The energy cost is the power times the print time, converted from
/// watt-hours to kilowatt-hours, times the price per kilowatt-hour, exactly:
/// in whole currency units, `cost / COST_SCALE` equals
/// `((power / QUANTITY_SCALE) * (time / QUANTITY_SCALE) / WATT_HOURS_PER_KWH)
/// * (price / QUANTITY_SCALE)`.
pub proof fn lemma_energy_cost_formula(time: Quantity, power: Quantity, price: Quantity)
    ensures
        energy_cost_of(time@, power@, price@) * ((QUANTITY_SCALE as int) * (QUANTITY_SCALE as int)
            * (WATT_HOURS_PER_KWH as int) * (QUANTITY_SCALE as int)) == (power@ * time@ * price@)
            * (COST_SCALE as int),
{
    let ptp = power@ * time@ * price@;
    assert(ptp * ((QUANTITY_SCALE as int) * (QUANTITY_SCALE as int) * (WATT_HOURS_PER_KWH as int)
        * (QUANTITY_SCALE as int)) == ptp * (COST_SCALE as int)) by (nonlinear_arith);
}

/// The total of the breakdown of every job is exactly its filament cost plus
/// its energy cost, each as the job's inputs give it.
pub proof fn lemma_total_is_sum(job: PrintJobParameters, b: CostBreakdown)
    requires
        is_breakdown_of(b, job),
    ensures
        b.total_cost@ == material_cost_of(job.filament_mass_kg@, job.filament_price_per_kg@)
            + energy_cost_of(
            job.print_time_hours@,
            job.printer_power_watts@,
            job.energy_price_per_kwh@,
        ),
{
}

/// A breakdown depends on the job alone: two computations for the same job
/// give the same breakdown.
pub proof fn lemma_breakdown_deterministic(
    job1: PrintJobParameters,
    job2: PrintJobParameters,
    b1: CostBreakdown,
    b2: CostBreakdown,
)
    requires
        job1 == job2,
        is_breakdown_of(b1, job1),
        is_breakdown_of(b2, job2),
    ensures
        b1 == b2,
{
}

proof fn lemma_product_bounds(a: int, b: int, c: int)
    requires
        -MAX_QUANTITY_MICROS <= a <= MAX_QUANTITY_MICROS,
        -MAX_QUANTITY_MICROS <= b <= MAX_QUANTITY_MICROS,
        -MAX_QUANTITY_MICROS <= c <= MAX_QUANTITY_MICROS,
    ensures
        -1_000_000_000_000_000_000_000_000 <= a * b <= 1_000_000_000_000_000_000_000_000,
        -1_000_000_000_000_000_000_000_000_000_000_000_000 <= a * b * c
            <= 1_000_000_000_000_000_000_000_000_000_000_000_000,
{
    let m: int = MAX_QUANTITY_MICROS as int;
    assert(-m * m <= a * b <= m * m) by (nonlinear_arith)
        requires
            -m <= a <= m,
            -m <= b <= m,
    ;
    let ab = a * b;
    assert(-(m * m) * m <= ab * c <= (m * m) * m) by (nonlinear_arith)
        requires
            -(m * m) <= ab <= m * m,
            -m <= c <= m,
            m > 0,
    ;
}

/// A calculator for the cost of 3D prints. It holds no state: every call
/// depends on its arguments alone.
#[derive(Clone, Copy, Debug, Default)]
pub struct CostCalculator {}

impl CostCalculator {
    /// Creates a new calculator.
    pub fn new() -> (r: CostCalculator)
        ensures
            r == (CostCalculator {}),
    {
        CostCalculator {}
    }

    /// The cost of the filament used: `filament_used` kilograms at
    /// `cost_per_kg` per kilogram.
    pub fn calculate_filament_cost(&self, filament_used: Quantity, cost_per_kg: Quantity) -> (r:
        Cost)
        ensures
            r@ == material_cost_of(filament_used@, cost_per_kg@),
            -MAX_MATERIAL_COST_UNITS <= r@ <= MAX_MATERIAL_COST_UNITS,
    {
        let mass = filament_used.micros() as i128;
        let price = cost_per_kg.micros() as i128;
        proof {
            lemma_product_bounds(mass as int, price as int, 0);
        }
        Cost { units: mass * price * MATERIAL_COST_FACTOR }
    }

    /// The cost of the electricity used: a printer drawing `printer_wattage`
    /// watts for `print_time` hours, at `energy_cost_per_kwh` per
    /// kilowatt-hour.
    pub fn calculate_energy_cost(
        &self,
        print_time: Quantity,
        printer_wattage: Quantity,
        energy_cost_per_kwh: Quantity,
    ) -> (r: Cost)
        ensures
            r@ == energy_cost_of(print_time@, printer_wattage@, energy_cost_per_kwh@),
            -MAX_ENERGY_COST_UNITS <= r@ <= MAX_ENERGY_COST_UNITS,
    {
        let time = print_time.micros() as i128;
        let power = printer_wattage.micros() as i128;
        let price = energy_cost_per_kwh.micros() as i128;
        proof {
            lemma_product_bounds(power as int, time as int, price as int);
        }
        let watt_hours = power * time;
        Cost { units: watt_hours * price }
    }

    /// The total cost of a print: the filament cost plus the energy cost.
    pub fn calculate_total_cost(
        &self,
        print_time: Quantity,
        filament_used: Quantity,
        cost_per_kg: Quantity,
        printer_wattage: Quantity,
        energy_cost_per_kwh: Quantity,
    ) -> (r: Cost)
        ensures
            r@ == material_cost_of(filament_used@, cost_per_kg@) + energy_cost_of(
                print_time@,
                printer_wattage@,
                energy_cost_per_kwh@,
            ),
    {
        let material = self.calculate_filament_cost(filament_used, cost_per_kg);
        let energy = self.calculate_energy_cost(print_time, printer_wattage, energy_cost_per_kwh);
        Cost { units: material.units + energy.units }
    }

    /// The cost breakdown of `job`: its filament cost, its energy cost, and
    /// their sum.
    pub fn total_cost(&self, job: &PrintJobParameters) -> (r: CostBreakdown)
        ensures
            is_breakdown_of(r, *job),
    {
        let material_cost = self.calculate_filament_cost(
            job.filament_mass_kg,
            job.filament_price_per_kg,
        );
        let energy_cost = self.calculate_energy_cost(
            job.print_time_hours,
            job.printer_power_watts,
            job.energy_price_per_kwh,
        );
        let total_cost = Cost { units: material_cost.units + energy_cost.units };
        CostBreakdown { material_cost, energy_cost, total_cost }
    }

    /// The cost breakdown of the job whose inputs read as the given decimal
    /// texts, each input that cannot be read taking its value from
    /// `defaults`.
    pub fn calculate_costs(
        &self,
        print_time: &str,
        filament_amount: &str,
        filament_cost: &str,
        printer_wattage: &str,
        energy_cost: &str,
        defaults: &PrintJobParameters,
    ) -> (r: CostBreakdown)
        ensures
            r.material_cost@ == material_cost_of(
                text_value_or(filament_amount@, defaults.filament_mass_kg@),
                text_value_or(filament_cost@, defaults.filament_price_per_kg@),
            ),
            r.energy_cost@ == energy_cost_of(
                text_value_or(print_time@, defaults.print_time_hours@),
                text_value_or(printer_wattage@, defaults.printer_power_watts@),
                text_value_or(energy_cost@, defaults.energy_price_per_kwh@),
            ),
            r.total_cost@ == r.material_cost@ + r.energy_cost@,
    {
        let job = PrintJobParameters::from_text(
            print_time,
            filament_amount,
            filament_cost,
            printer_wattage,
            energy_cost,
            defaults,
        );
        self.total_cost(&job)
    }
}

} // verus!
