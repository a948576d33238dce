use production_service::catalog::{
    MachineryRepository, MachineryUseCases, Pipe, PipeRepository, PipeType, PipeTypeRepository, PipeUseCases,
    RawMaterialRepository,
};
use production_service::datetime::DateTimeDerived;
use production_service::decimal::DecimalValue;
use production_service::error::Error;
use production_service::pipe_stats::PipeStats;
use production_service::plans::{ProductionPlanPerDay, SalesPlanPerDay, SalesPlanPerDayUnitsUseCases};
use production_service::production_info::{
    ProductionInfo, ProductionInfoUseCases, ProductionStore, SelectCreate, SelectCreateAction, SelectCreateEvent,
};
use production_service::repository::Unwrapper;
use production_service::role::{Role, RoleGuard};
use production_service::thing::ThingDerived;

const DAY: i64 = 19783;

fn at(day: i64, hour: i64) -> DateTimeDerived {
    DateTimeDerived(day * 86400 + hour * 3600)
}

fn thing(tb: &str, id: &str) -> ThingDerived {
    ThingDerived { tb: tb.to_string(), id: id.to_string() }
}

fn amount() -> DecimalValue {
    DecimalValue { mantissa: 100, scale: 0 }
}

fn sales(id: Option<&str>, date: DateTimeDerived) -> SalesPlanPerDay {
    SalesPlanPerDay { id: id.map(|k| thing("SalesPlanPerDay", k)), amount: amount(), units: thing("MeasureUnits", "t"), date }
}

fn production(id: Option<&str>, date: DateTimeDerived) -> ProductionPlanPerDay {
    ProductionPlanPerDay {
        id: id.map(|k| thing("ProductionPlanPerDay", k)),
        amount: amount(),
        units: thing("MeasureUnits", "t"),
        date,
    }
}

fn full_store() -> ProductionStore {
    ProductionStore {
        facts: vec![],
        sales_plans: vec![sales(Some("s0"), at(DAY - 1, 0)), sales(Some("s1"), at(DAY, 0))],
        production_plans: vec![production(Some("q1"), at(DAY, 8))],
        pipes: vec![Pipe {
            id: Some(thing("Pipe", "final")),
            name: "final".to_string(),
            pipe_type: thing("PipeType", "wide"),
            material: thing("RawMaterial", "steel"),
        }],
        pipe_types: vec![PipeType {
            id: Some(thing("PipeType", "wide")),
            name: "wide".to_string(),
            max_flow: amount(),
            wearout_max: amount(),
            units: thing("MeasureUnits", "m3"),
        }],
        readings: vec![
            reading(at(DAY - 1, 20), 8),
            reading(at(DAY, 10), 1),
            reading(at(DAY, 22), 20),
        ],
    }
}

fn reading(date: DateTimeDerived, rate: i128) -> PipeStats {
    PipeStats {
        id: None,
        date,
        flow: DecimalValue { mantissa: rate, scale: 0 },
        units: thing("MeasureUnits", "m3"),
        wearout: DecimalValue { mantissa: 0, scale: 0 },
        pipe: thing("Pipe", "final"),
    }
}

fn key(id: &str) -> ThingDerived {
    thing("ProductionInfo", id)
}

#[test]
fn creates_record_when_everything_resolves() {
    let mut store = full_store();
    let r = ProductionInfoUseCases::select_create(&mut store, at(DAY, 12), Some(thing("Pipe", "final")), key("n1"))
        .unwrap()
        .unwrap();
    assert_eq!(r.id.as_ref().unwrap().id, "n1");
    assert_eq!(r.sales_plan.id, "s1");
    assert_eq!(r.production_plan.id, "q1");
    assert_eq!(r.final_pipe.id, "final");
    assert_eq!(r.measure_units.id, "m3");
    assert_eq!(r.date, at(DAY, 12));
    assert_eq!(store.facts.len(), 1);
}

#[test]
fn second_call_returns_same_record() {
    let mut store = full_store();
    let first = ProductionInfoUseCases::select_create(&mut store, at(DAY, 12), Some(thing("Pipe", "final")), key("n1"))
        .unwrap()
        .unwrap();
    let second = ProductionInfoUseCases::select_create(&mut store, at(DAY, 3), Some(thing("Pipe", "final")), key("n2"))
        .unwrap()
        .unwrap();
    assert_eq!(first.id.as_ref().unwrap().id, second.id.as_ref().unwrap().id);
    assert_eq!(second.date, at(DAY, 12));
    assert_eq!(store.facts.len(), 1);
}

#[test]
fn no_line_gives_nothing() {
    let mut store = full_store();
    let r = ProductionInfoUseCases::select_create(&mut store, at(DAY, 12), None, key("n1")).unwrap();
    assert!(r.is_none());
    assert!(store.facts.is_empty());
}

#[test]
fn existing_record_is_returned_without_line() {
    let mut store = full_store();
    store.facts.push(ProductionInfo {
        id: Some(key("old")),
        sales_plan: thing("SalesPlanPerDay", "s1"),
        production_plan: thing("ProductionPlanPerDay", "q1"),
        final_pipe: thing("Pipe", "final"),
        measure_units: thing("MeasureUnits", "m3"),
        date: at(DAY, 6),
    });
    let r = ProductionInfoUseCases::select_create(&mut store, at(DAY, 12), None, key("n1")).unwrap().unwrap();
    assert_eq!(r.id.unwrap().id, "old");
    assert_eq!(store.facts.len(), 1);
}

#[test]
fn missing_sales_plan_gives_nothing() {
    let mut store = full_store();
    store.sales_plans.clear();
    let r = ProductionInfoUseCases::select_create(&mut store, at(DAY, 12), Some(thing("Pipe", "final")), key("n1")).unwrap();
    assert!(r.is_none());
    assert!(store.facts.is_empty());
}

#[test]
fn missing_production_plan_gives_nothing() {
    let mut store = full_store();
    let r = ProductionInfoUseCases::select_create(&mut store, at(DAY + 1, 12), Some(thing("Pipe", "final")), key("n1"))
        .unwrap();
    assert!(r.is_none());
    store.production_plans.clear();
    let r = ProductionInfoUseCases::select_create(&mut store, at(DAY, 12), Some(thing("Pipe", "final")), key("n1")).unwrap();
    assert!(r.is_none());
    assert!(store.facts.is_empty());
}

#[test]
fn plan_without_key_fails() {
    let mut store = full_store();
    store.sales_plans = vec![sales(None, at(DAY, 0))];
    let r = ProductionInfoUseCases::select_create(&mut store, at(DAY, 12), Some(thing("Pipe", "final")), key("n1"));
    assert!(matches!(r, Err(Error::Generic { .. })));
}

#[test]
fn unknown_line_fails() {
    let mut store = full_store();
    let r = ProductionInfoUseCases::select_create(&mut store, at(DAY, 12), Some(thing("Pipe", "other")), key("n1"));
    assert!(matches!(r, Err(Error::SurrealDbNoResult { .. })));
    let r = ProductionInfoUseCases::select_create(&mut store, at(DAY, 12), Some(thing("Machinery", "final")), key("n1"));
    assert!(matches!(r, Err(Error::Generic { .. })));
    assert!(store.facts.is_empty());
}

#[test]
fn steps_of_a_get_or_create() {
    let (state, action) = SelectCreate::start(at(DAY, 1), Some(thing("Pipe", "final")));
    assert!(matches!(action, SelectCreateAction::FindExisting(d) if d == at(DAY, 1)));
    let (state, action) = state.step(SelectCreateEvent::Existing(None));
    assert!(matches!(action, SelectCreateAction::FindSalesPlan(_)));
    let (state, action) = state.step(SelectCreateEvent::SalesPlan(Some(sales(Some("s1"), at(DAY, 0)))));
    assert!(matches!(action, SelectCreateAction::FindProductionPlan(_)));
    let (state, action) = state.step(SelectCreateEvent::ProductionPlan(None));
    assert!(matches!(action, SelectCreateAction::Return(None)));
    assert!(matches!(state, SelectCreate::Finished));
}

#[test]
fn role_guard_admits_only_its_role() {
    let guard = RoleGuard::new(Role::Admin);
    assert_eq!(guard.role, Role::Admin);
    assert!(guard.check(&vec![Role::User, Role::Admin]).is_ok());
    assert!(matches!(guard.check(&vec![Role::User]), Err(Error::Forbidden)));
    assert!(matches!(guard.check(&vec![]), Err(Error::Forbidden)));
}

#[test]
fn lookups_by_reference_check_the_table() {
    let store = full_store();
    assert!(PipeRepository::select_by_id(&store.pipes, &thing("Pipe", "final")).is_ok());
    assert!(matches!(PipeRepository::select_by_id(&store.pipes, &thing("PipeType", "final")), Err(Error::Generic { .. })));
    assert!(matches!(
        PipeTypeRepository::select_by_id(&store.pipe_types, &thing("PipeType", "narrow")),
        Err(Error::SurrealDbNoResult { .. })
    ));
    assert!(MachineryRepository::check_id(&thing("Machinery", "x")).is_ok());
    assert!(RawMaterialRepository::check_id(&thing("Machinery", "x")).is_err());
}

#[test]
fn listing_defaults() {
    assert_eq!(PipeUseCases::list_window(None, None), (10, 10));
    assert_eq!(MachineryUseCases::list_window(Some(0), None), (0, 10));
    assert_eq!(SalesPlanPerDayUnitsUseCases::list_window(None, Some(3)), (10, 3));
    assert_eq!(ProductionInfoUseCases::list_window(None, None), (10, 10));
}

#[test]
fn unwrapper_reports_missing_record() {
    assert_eq!(Unwrapper::unwrapper_option(Some(7), "count").unwrap(), 7);
    match Unwrapper::unwrapper_option::<i32>(None, "count") {
        Err(Error::SurrealDbNoResult { id, source }) => {
            assert_eq!(id, "count");
            assert_eq!(source, "internal");
        }
        _ => panic!("expected a missing-record failure"),
    }
}

#[test]
fn quantity_of_a_stored_record() {
    let mut store = full_store();
    let created = ProductionInfoUseCases::select_create(&mut store, at(DAY, 12), Some(thing("Pipe", "final")), key("n1"))
        .unwrap()
        .unwrap();
    let volume = ProductionInfoUseCases::production_fact_quantity(&store, created.id.as_ref().unwrap())
        .unwrap()
        .unwrap();
    let as_decimal = rust_decimal::Decimal::from_i128_with_scale(volume.mantissa, volume.scale);
    assert_eq!(as_decimal, rust_decimal::Decimal::new(132, 0));
    assert!(ProductionInfoUseCases::production_fact_quantity(&store, &key("missing")).is_err());
    assert!(ProductionInfoUseCases::production_fact_quantity(&store, &thing("Pipe", "n1")).is_err());
}
