use production_service::datetime::DateTimeDerived;
use production_service::decimal::DecimalValue;
use production_service::flow::integrate;
use production_service::pipe_stats::{PipeStats, PipeStatsRepository, PipeStatsUseCases};
use production_service::production_info::ProductionInfo;
use production_service::thing::ThingDerived;
use rust_decimal::Decimal;

const DAY: i64 = 19783;

fn at(day: i64, hour: i64, minute: i64) -> DateTimeDerived {
    DateTimeDerived(day * 86400 + hour * 3600 + minute * 60)
}

fn thing(tb: &str, id: &str) -> ThingDerived {
    ThingDerived { tb: tb.to_string(), id: id.to_string() }
}

fn rate(mantissa: i128, scale: u32) -> DecimalValue {
    DecimalValue { mantissa, scale }
}

fn reading(pipe: &str, date: DateTimeDerived, flow: DecimalValue) -> PipeStats {
    PipeStats {
        id: None,
        date,
        flow,
        units: thing("MeasureUnits", "m3"),
        wearout: rate(0, 0),
        pipe: thing("Pipe", pipe),
    }
}

fn as_decimal(v: DecimalValue) -> Decimal {
    Decimal::from_i128_with_scale(v.mantissa, v.scale)
}

fn info(pipe: &str, date: DateTimeDerived) -> ProductionInfo {
    ProductionInfo {
        id: Some(thing("ProductionInfo", "p1")),
        sales_plan: thing("SalesPlanPerDay", "s1"),
        production_plan: thing("ProductionPlanPerDay", "q1"),
        final_pipe: thing("Pipe", pipe),
        measure_units: thing("MeasureUnits", "m3"),
        date,
    }
}

#[test]
fn three_readings_without_carry() {
    let samples = vec![
        reading("a", at(DAY, 1, 0), rate(5, 1)),
        reading("a", at(DAY, 10, 0), rate(6, 0)),
        reading("a", at(DAY, 20, 0), rate(8, 0)),
    ];
    let r = integrate(DAY, &samples, &None).unwrap();
    assert_eq!(as_decimal(r), Decimal::new(965, 1));
}

#[test]
fn carry_from_previous_day() {
    let samples = vec![
        reading("a", at(DAY + 1, 10, 0), rate(1, 0)),
        reading("a", at(DAY + 1, 22, 0), rate(20, 0)),
    ];
    let previous = Some(reading("a", at(DAY, 20, 0), rate(8, 0)));
    let r = integrate(DAY + 1, &samples, &previous).unwrap();
    assert_eq!(as_decimal(r), Decimal::new(132, 0));
}

#[test]
fn no_readings_is_zero() {
    let r = integrate(DAY, &vec![], &None).unwrap();
    assert_eq!(as_decimal(r), Decimal::ZERO);
}

#[test]
fn only_previous_reading_holds_all_day() {
    let previous = Some(reading("a", at(DAY - 1, 23, 0), rate(25, 1)));
    let r = integrate(DAY, &vec![], &previous).unwrap();
    assert_eq!(as_decimal(r), Decimal::new(60, 0));
}

#[test]
fn single_reading_runs_to_midnight() {
    let samples = vec![reading("a", at(DAY, 18, 0), rate(3, 0))];
    let r = integrate(DAY, &samples, &None).unwrap();
    assert_eq!(as_decimal(r), Decimal::new(18, 0));
}

#[test]
fn partial_hours_are_divided_exactly() {
    // the carried rate holds for the half hour before the first reading
    let samples = vec![
        reading("a", at(DAY, 0, 30), rate(2, 0)),
        reading("a", at(DAY, 12, 0), rate(4, 0)),
    ];
    let previous = Some(reading("a", at(DAY - 1, 12, 0), rate(10, 0)));
    let r = integrate(DAY, &samples, &previous).unwrap();
    // 10 * 0.5 + 2 * 11.5 + 4 * 12
    assert_eq!(as_decimal(r), Decimal::new(76, 0));
}

#[test]
fn selection_keeps_line_and_day_in_order() {
    let records = vec![
        reading("a", at(DAY, 20, 0), rate(8, 0)),
        reading("b", at(DAY, 5, 0), rate(100, 0)),
        reading("a", at(DAY, 1, 0), rate(5, 1)),
        reading("a", at(DAY + 1, 3, 0), rate(7, 0)),
        reading("a", at(DAY, 10, 0), rate(6, 0)),
    ];
    let picked = PipeStatsRepository::select_by_pipe_and_date(&records, &thing("Pipe", "a"), at(DAY, 12, 0));
    let hours: Vec<i64> = picked.iter().map(|r| r.date.0).collect();
    assert_eq!(hours, vec![at(DAY, 1, 0).0, at(DAY, 10, 0).0, at(DAY, 20, 0).0]);
}

#[test]
fn previous_reading_is_latest_of_earlier_days() {
    let records = vec![
        reading("a", at(DAY - 2, 23, 0), rate(1, 0)),
        reading("a", at(DAY - 1, 20, 0), rate(8, 0)),
        reading("a", at(DAY - 1, 5, 0), rate(3, 0)),
        reading("b", at(DAY - 1, 22, 0), rate(9, 0)),
        reading("a", at(DAY, 1, 0), rate(2, 0)),
    ];
    let p = PipeStatsRepository::select_previous_reading_by_pipe_and_date(&records, &thing("Pipe", "a"), at(DAY, 0, 0))
        .unwrap();
    assert_eq!(p.date, at(DAY - 1, 20, 0));
    let none = PipeStatsRepository::select_previous_reading_by_pipe_and_date(&records, &thing("Pipe", "a"), at(DAY - 2, 0, 0));
    assert!(none.is_none());
}

#[test]
fn production_fact_from_stored_readings() {
    let records = vec![
        reading("a", at(DAY, 20, 0), rate(8, 0)),
        reading("a", at(DAY + 1, 22, 0), rate(20, 0)),
        reading("b", at(DAY + 1, 1, 0), rate(100, 0)),
        reading("a", at(DAY + 1, 10, 0), rate(1, 0)),
    ];
    let r = info("a", at(DAY + 1, 9, 0)).production_fact(&records).unwrap();
    assert_eq!(as_decimal(r), Decimal::new(132, 0));
}

#[test]
fn later_reading_leaves_earlier_day_unchanged() {
    let mut records = vec![
        reading("a", at(DAY, 1, 0), rate(5, 1)),
        reading("a", at(DAY, 10, 0), rate(6, 0)),
        reading("a", at(DAY, 20, 0), rate(8, 0)),
    ];
    let fact = info("a", at(DAY, 0, 0));
    let before = fact.production_fact(&records).unwrap();
    records.push(reading("a", at(DAY + 1, 2, 0), rate(50, 0)));
    let after = fact.production_fact(&records).unwrap();
    assert_eq!(as_decimal(before), as_decimal(after));
    records.push(reading("a", at(DAY, 22, 0), rate(0, 0)));
    let changed = fact.production_fact(&records).unwrap();
    assert_eq!(as_decimal(changed), Decimal::new(805, 1));
}

#[test]
fn day_and_seconds_of_instants() {
    let t = at(DAY, 7, 30);
    assert_eq!(t.day(), DAY);
    assert_eq!(t.seconds_from_midnight(), 7 * 3600 + 1800);
    assert_eq!(t.seconds_until_next_day(), 86400 - 7 * 3600 - 1800);
    let before_epoch = DateTimeDerived(-1);
    assert_eq!(before_epoch.day(), -1);
    assert_eq!(before_epoch.seconds_from_midnight(), 86399);
    assert_eq!(DateTimeDerived::seconds_between(&at(DAY, 1, 0), &at(DAY, 0, 0)), -3600);
}

#[test]
fn parse_rfc3339_instants() {
    assert_eq!(DateTimeDerived::parse("1970-01-02T00:00:00Z"), Some(DateTimeDerived(86400)));
    assert_eq!(DateTimeDerived::parse("1970-01-01T01:00:00+01:00"), Some(DateTimeDerived(0)));
    assert_eq!(DateTimeDerived::parse("yesterday"), None);
}

#[test]
fn reading_listing_defaults() {
    assert_eq!(PipeStatsUseCases::list_window(None, None), (0, 10));
    assert_eq!(PipeStatsUseCases::list_window(Some(5), Some(2)), (5, 2));
}
