[package]
name = "blades_factions"
version = "0.1.0"
edition = "2021"
publish = false

[dependencies]
anyhow = "=1.0.104"
bytes-cast = "=0.3.0"
directories-next = "=2.0.0"
eframe = { version = "=0.32.3", default-features = false, features = ["default_fonts", "glow", "x11"] }
egui_extras = { version = "=0.32.3", default-features = false }
egui-file-dialog = { version = "=0.11.0", default-features = false }
enum-iterator = "=2.3.0"
fern = "=0.7.1"
i18n-embed = { version = "=0.16.0", features = ["fluent-system", "desktop-requester", "filesystem-assets"] }
log = "=0.4.34"
pot = "=3.0.1"
serde = { version = "=1.0.229", features = ["derive"] }
serde_json = "=1.0.154"
