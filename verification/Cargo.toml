[package]
name = "dropbox_backup_to_external_disk_cli"
version = "0.1.0"
edition = "2021"
publish = false

[dependencies]
chrono = "0.4"
crossplatform_path = "*"
inquire = "*"
pretty_env_logger = "*"
