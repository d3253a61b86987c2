use print_cost::calculator::{CostBreakdown, CostCalculator, PrintJobParameters, COST_SCALE};
use print_cost::quantity::Quantity;

fn q(text: &str) -> Quantity {
    Quantity::parse(text).unwrap()
}

fn job(time: &str, mass: &str, price: &str, power: &str, energy_price: &str) -> PrintJobParameters {
    PrintJobParameters {
        print_time_hours: q(time),
        filament_mass_kg: q(mass),
        filament_price_per_kg: q(price),
        printer_power_watts: q(power),
        energy_price_per_kwh: q(energy_price),
    }
}

#[test]
fn material_cost_one_kilogram_at_twenty() {
    let calc = CostCalculator::new();
    let cost = calc.calculate_filament_cost(q("1.0"), q("20"));
    assert_eq!(cost.units(), 20 * COST_SCALE);
}

#[test]
fn energy_cost_five_hours_at_two_hundred_watts() {
    let calc = CostCalculator::new();
    let kwh = calc.calculate_energy_cost(q("5"), q("200"), q("1"));
    assert_eq!(kwh.units(), COST_SCALE);
    let cost = calc.calculate_energy_cost(q("5"), q("200"), q("0.15"));
    assert_eq!(cost.units(), 150_000_000_000_000_000_000);
}

#[test]
fn total_cost_of_combined_job() {
    let calc = CostCalculator::new();
    let total = calc.calculate_total_cost(q("5"), q("1.0"), q("20"), q("200"), q("0.15"));
    assert_eq!(total.units(), 20_150_000_000_000_000_000_000);
    let b = calc.total_cost(&job("5", "1.0", "20", "200", "0.15"));
    assert_eq!(b.material_cost.units(), 20 * COST_SCALE);
    assert_eq!(b.energy_cost.units(), 150_000_000_000_000_000_000);
    assert_eq!(b.total_cost, total);
}

#[test]
fn all_inputs_zero_cost_nothing() {
    let calc = CostCalculator::new();
    let b = calc.total_cost(&job("0", "0", "0", "0", "0"));
    assert_eq!(b.material_cost.units(), 0);
    assert_eq!(b.energy_cost.units(), 0);
    assert_eq!(b.total_cost.units(), 0);
}

#[test]
fn negative_mass_gives_negative_cost() {
    let calc = CostCalculator::new();
    let cost = calc.calculate_filament_cost(q("-1.0"), q("20"));
    assert!(cost.units() < 0);
    assert_eq!(cost.units(), -20 * COST_SCALE);
}

#[test]
fn material_cost_is_mass_times_price() {
    let calc = CostCalculator::new();
    let cost = calc.calculate_filament_cost(q("2.5"), q("18.4"));
    assert_eq!(cost.units(), 46 * COST_SCALE);
    let none = calc.calculate_filament_cost(q("0"), q("999.99"));
    assert_eq!(none.units(), 0);
}

#[test]
fn energy_cost_follows_kilowatt_hours() {
    let calc = CostCalculator::new();
    // 250 W for 3.5 h is 0.875 kWh; at 0.2 per kWh that is 0.175.
    let cost = calc.calculate_energy_cost(q("3.5"), q("250"), q("0.2"));
    assert_eq!(cost.units(), 175_000_000_000_000_000_000);
}

#[test]
fn breakdown_total_is_sum_of_parts() {
    let calc = CostCalculator::new();
    let b = calc.total_cost(&job("7.25", "0.333", "24.99", "180", "0.31"));
    assert_eq!(b.total_cost.units(), b.material_cost.units() + b.energy_cost.units());
}

#[test]
fn breakdown_is_the_same_on_every_call() {
    let calc = CostCalculator::new();
    let j = job("2", "0.5", "30", "150", "0.25");
    let first: CostBreakdown = calc.total_cost(&j);
    let second: CostBreakdown = CostCalculator::new().total_cost(&j);
    assert_eq!(first, second);
}

#[test]
fn largest_inputs_do_not_overflow() {
    let calc = CostCalculator::new();
    let b = calc.total_cost(&job("1000000", "1000000", "1000000", "1000000", "1000000"));
    assert_eq!(b.material_cost.units(), 1_000_000_000_000 * COST_SCALE);
    assert_eq!(b.energy_cost.units(), 1_000_000_000_000_000 * COST_SCALE);
    let low = calc.total_cost(&job("-1000000", "-1000000", "1000000", "1000000", "1000000"));
    assert_eq!(low.material_cost.units(), -1_000_000_000_000 * COST_SCALE);
    assert_eq!(low.energy_cost.units(), -1_000_000_000_000_000 * COST_SCALE);
}

#[test]
fn costs_from_text_use_defaults() {
    let calc = CostCalculator::new();
    let defaults = PrintJobParameters::input_defaults();
    let b = calc.calculate_costs("5", "1.0", "20", "", "0.15", &defaults);
    assert_eq!(b.total_cost.units(), 20_150_000_000_000_000_000_000);
    let empty = calc.calculate_costs("", "", "", "", "", &defaults);
    assert_eq!(empty.total_cost.units(), 0);
    let unreadable = calc.calculate_costs("2", "x", "20", "abc", "1", &defaults);
    assert_eq!(unreadable.material_cost.units(), 0);
    assert_eq!(unreadable.energy_cost.units(), 400_000_000_000_000_000_000);
}

#[test]
fn input_defaults_power_is_two_hundred_watts() {
    let d = PrintJobParameters::input_defaults();
    assert_eq!(d.printer_power_watts.micros(), 200_000_000);
    assert_eq!(d.print_time_hours.micros(), 0);
    assert_eq!(d.filament_mass_kg.micros(), 0);
    assert_eq!(d.filament_price_per_kg.micros(), 0);
    assert_eq!(d.energy_price_per_kwh.micros(), 0);
}

#[test]
fn job_from_text_reads_each_field() {
    let defaults = PrintJobParameters::input_defaults();
    let j = PrintJobParameters::from_text("1.5", "0.2", "nope", "", "0.3", &defaults);
    assert_eq!(j.print_time_hours.micros(), 1_500_000);
    assert_eq!(j.filament_mass_kg.micros(), 200_000);
    assert_eq!(j.filament_price_per_kg.micros(), 0);
    assert_eq!(j.printer_power_watts.micros(), 200_000_000);
    assert_eq!(j.energy_price_per_kwh.micros(), 300_000);
}
