pub mod damage_causers;
pub mod telemetry;
