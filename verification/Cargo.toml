[package]
name = "deno_rider"
version = "0.1.0"
edition = "2021"
publish = false

[dependencies]
deno_core = "=0.413.0"
deno_fs = "=0.170.0"
deno_resolver = "=0.91.0"
rustler = "=0.35.1"
serde_json = "=1.0.154"
serde_v8 = "=0.322.0"
slab = "=0.4.12"
sys_traits = "=0.1.29"
tokio = { version = "=1.54.1", features = ["macros", "rt", "rt-multi-thread", "sync", "time"] }
