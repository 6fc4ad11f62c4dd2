[package]
name = "rustsbi_proto"
version = "0.1.0"
edition = "2021"
publish = false

[dependencies]
dtb-walker = "=0.1.3"
uart16550 = "=0.0.1"
embedded-hal = "=1.0.0-alpha.9"
embedded-hal-nb = "=1.0.0-alpha.1"
nb = "=1.1.0"
volatile-register = "=0.2.2"
rustsbi = "=0.4.1"
aclint = "=0.0.0"
sifive-test-device = "=0.0.0"
spin = "=0.9.9"
riscv = "=0.10.1"
log = "=0.4.34"
rcore-console = "=0.0.0"
