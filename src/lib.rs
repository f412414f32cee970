// Four-way intersection simulation: vehicle kinematics and admission control.
//
// `vehicle` holds one vehicle's per-tick decision (admission, turn snap, speed,
// collision predicate, congestion throttle, entry time); `world` owns the active
// vehicles, spawning and the statistics; `road`, `lane`, `intersect` and
// `traffic_light` describe the scene that is drawn around them.

mod chance;
pub mod intersect;
pub mod lane;
pub mod road;
pub mod traffic_light;
pub mod vehicle;
pub mod world;
