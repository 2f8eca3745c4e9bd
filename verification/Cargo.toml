[package]
name = "identity_workflow"
version = "0.1.0"
edition = "2021"
publish = false

[dependencies]
aws-config = { version = "*", default-features = false }
aws-sdk-cognitoidentityprovider = { version = "*", default-features = false }
rpassword = "*"
structopt = "*"
tokio = { version = "*", default-features = false, features = ["macros", "rt-multi-thread"] }
