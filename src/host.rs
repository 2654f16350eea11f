//! The host side of a machine's life: where its images live, the
//! cloud-init seed it boots with, its password hash, how a shutdown is
//! driven and how a machine's id is shown.
use vstd::prelude::*;
use crate::install::{decimal, decimal_text};

verus! {

#[verifier::external_type_specification]
#[verifier::external_body]
pub struct ExShaCryptParams(sha_crypt::Params);

#[verifier::external_type_specification]
#[verifier::external_body]
pub struct ExShaCryptError(sha_crypt::Error);

#[verifier::external_type_specification]
#[verifier::external_body]
pub struct ExPasswordHashError(sha_crypt::password_hash::Error);

/// The path of the machine's disk image.
pub fn disk_image_path(name: &str) -> (r: String)
    ensures
        r@ == "/var/lib/libvirt/images/"@ + name@ + ".qcow2"@,
{
    let mut s = String::from_str("/var/lib/libvirt/images/");
    s.append(name);
    s.append(".qcow2");
    s
}

/// The path of the cloud image that every disk image is backed by.
pub fn cloud_image_path() -> (r: String)
    ensures
        r@ == "/var/lib/libvirt/images/iso/noble-server-cloudimg-amd64.img"@,
{
    String::from_str("/var/lib/libvirt/images/iso/noble-server-cloudimg-amd64.img")
}

/// The size of a disk image as the image tool reads it: gigabytes, then `G`.
pub fn disk_size_arg(size_gb: u64) -> (r: String)
    ensures
        r@ == decimal(size_gb as nat) + "G"@,
{
    let mut s = decimal_text(size_gb);
    s.append("G");
    s
}

/// The path of the machine's cloud-init seed image.
pub fn seed_iso_path(name: &str) -> (r: String)
    ensures
        r@ == "/var/lib/libvirt/images/"@ + name@ + "-seed.iso"@,
{
    let mut s = String::from_str("/var/lib/libvirt/images/");
    s.append(name);
    s.append("-seed.iso");
    s
}

/// The scratch file that holds the user data while the seed is built.
pub fn user_data_file(name: &str) -> (r: String)
    ensures
        r@ == "/tmp/"@ + name@ + "-user-data"@,
{
    let mut s = String::from_str("/tmp/");
    s.append(name);
    s.append("-user-data");
    s
}

/// The scratch file that holds the meta data while the seed is built.
pub fn meta_data_file(name: &str) -> (r: String)
    ensures
        r@ == "/tmp/"@ + name@ + "-meta-data"@,
{
    let mut s = String::from_str("/tmp/");
    s.append(name);
    s.append("-meta-data");
    s
}

/// The cloud-config user data: the host name, locale and keyboard, one
/// sudo user `username` whose password has the crypt hash `password_hash`,
/// and password login over SSH.
pub fn cloud_init_user_data(name: &str, username: &str, password_hash: &str) -> (r: String)
    ensures
        r@ == "#cloud-config\nhostname: "@ + name@
            + "\nlocale: en_US.UTF-8\nkeyboard:\n  layout: us\n\nusers:\n  - name: "@ + username@
            + "\n    sudo: \"ALL=(ALL) NOPASSWD:ALL\"\n    lock_passwd: false\n    passwd: "@
            + password_hash@
            + "\n    shell: /bin/bash\n    groups: [sudo]\n    gecos: User\n    \nssh_pwauth: true\n"@,
{
    let mut s = String::from_str("#cloud-config\nhostname: ");
    s.append(name);
    s.append("\nlocale: en_US.UTF-8\nkeyboard:\n  layout: us\n\nusers:\n  - name: ");
    s.append(username);
    s.append("\n    sudo: \"ALL=(ALL) NOPASSWD:ALL\"\n    lock_passwd: false\n    passwd: ");
    s.append(password_hash);
    s.append("\n    shell: /bin/bash\n    groups: [sudo]\n    gecos: User\n    \nssh_pwauth: true\n");
    s
}

/// The cloud-init meta data: the instance id and the local host name, both
/// the machine's name.
pub fn cloud_init_meta_data(name: &str) -> (r: String)
    ensures
        r@ == "instance-id: "@ + name@ + "\nlocal-hostname: "@ + name@ + "\n"@,
{
    let mut s = String::from_str("instance-id: ");
    s.append(name);
    s.append("\nlocal-hostname: ");
    s.append(name);
    s.append("\n");
    s
}

/// The number of rounds of the password hash.
pub const PASSWORD_HASH_ROUNDS: u32 = 10000;

/// Why a password could not be hashed.
#[derive(Debug, PartialEq, Eq)]
pub enum PasswordHashError {
    /// The round count is out of the range that the hash accepts.
    Rounds,
    /// The hasher failed, for instance where no random salt could be drawn.
    Hashing,
}

/// Relies on sha_crypt::Params::new: a round count is accepted exactly
/// from Params::ROUNDS_MIN to Params::ROUNDS_MAX, inclusive.
#[verifier::external_body]
fn sha_crypt_params(rounds: u32) -> (r: Result<sha_crypt::Params, sha_crypt::Error>)
    ensures
        r is Ok <==> 1000 <= rounds <= 999_999_999,
{
    sha_crypt::Params::new(rounds)
}

/// Relies on PasswordHasher::hash_password of sha_crypt::ShaCrypt with
/// SHA-512: the crypt string of the password under a freshly drawn random
/// salt, which begins with the algorithm's id `6` and the round count.
#[verifier::external_body]
fn sha512_crypt_random_salt(password: &str, params: sha_crypt::Params) -> (r: Result<
    String,
    sha_crypt::password_hash::Error,
>)
    ensures
        r is Ok ==> r->Ok_0@.len() >= 10 && r->Ok_0@.take(10) == "$6$rounds="@,
{
    let hasher = sha_crypt::ShaCrypt::new(sha_crypt::Algorithm::Sha512Crypt, params);
    match sha_crypt::PasswordHasher::<sha_crypt::PasswordHash>::hash_password(&hasher, password.as_bytes()) {
        Ok(h) => Ok(AsRef::<str>::as_ref(&h).to_string()),
        Err(e) => Err(e),
    }
}

/// Hashes a password with SHA-512 crypt over the fixed round count and a
/// random salt.
pub fn hash_password_sha512(password: &str) -> (r: Result<String, PasswordHashError>)
    ensures
        r is Err ==> r->Err_0 == PasswordHashError::Hashing,
        r is Ok ==> r->Ok_0@.len() >= 10 && r->Ok_0@.take(10) == "$6$rounds="@,
{
    let params = match sha_crypt_params(PASSWORD_HASH_ROUNDS) {
        Ok(p) => p,
        Err(_) => {
            return Err(PasswordHashError::Rounds);
        },
    };
    match sha512_crypt_random_salt(password, params) {
        Ok(h) => Ok(h),
        Err(_) => Err(PasswordHashError::Hashing),
    }
}

/// How far a graceful shutdown has come.
#[derive(Debug, Clone, Copy, PartialEq, Eq)]
pub enum ShutdownState {
    /// Nothing has been asked of the machine yet.
    Start,
    /// A shutdown was requested; this many one-second waits are left.
    Waiting(u32),
}

/// What to do next while shutting a machine down.
#[derive(Debug, Clone, Copy, PartialEq, Eq)]
pub enum ShutdownAction {
    /// The machine is not running: nothing to do.
    NotActive,
    /// Ask the guest to shut down.
    RequestShutdown,
    /// Wait one second, then look again.
    Wait,
    /// The guest stopped by itself.
    Stopped,
    /// The guest did not stop in time: power it off.
    ForceOff,
}

/// The number of one-second waits for a guest to stop before it is
/// powered off.
pub const SHUTDOWN_WAIT_SECONDS: u32 = 10;

/// One step of a shutdown: given the state and whether the machine is
/// running now, the next state and the action to take. `None` as the next
/// state means the shutdown is over.
pub fn shutdown_step(state: ShutdownState, active: bool) -> (r: (Option<ShutdownState>, ShutdownAction))
    ensures
        state == ShutdownState::Start && !active ==> r == (None::<ShutdownState>, ShutdownAction::NotActive),
        state == ShutdownState::Start && active ==> r == (
            Some(ShutdownState::Waiting(SHUTDOWN_WAIT_SECONDS)),
            ShutdownAction::RequestShutdown,
        ),
        state is Waiting && !active ==> r == (None::<ShutdownState>, ShutdownAction::Stopped),
        state == ShutdownState::Waiting(0) && active ==> r == (None::<ShutdownState>, ShutdownAction::ForceOff),
        state is Waiting && state->Waiting_0 > 0 && active ==> r == (
            Some(ShutdownState::Waiting((state->Waiting_0 - 1) as u32)),
            ShutdownAction::Wait,
        ),
{
    match state {
        ShutdownState::Start => {
            if active {
                (Some(ShutdownState::Waiting(SHUTDOWN_WAIT_SECONDS)), ShutdownAction::RequestShutdown)
            } else {
                (None, ShutdownAction::NotActive)
            }
        },
        ShutdownState::Waiting(n) => {
            if !active {
                (None, ShutdownAction::Stopped)
            } else if n == 0 {
                (None, ShutdownAction::ForceOff)
            } else {
                (Some(ShutdownState::Waiting(n - 1)), ShutdownAction::Wait)
            }
        },
    }
}

/// How a machine's id is shown: `N/A` for an inactive machine (id 0),
/// else the id in decimal.
pub fn domain_id_text(id: u32) -> (r: String)
    ensures
        id == 0 ==> r@ == "N/A"@,
        id != 0 ==> r@ == decimal(id as nat),
{
    if id == 0 {
        String::from_str("N/A")
    } else {
        decimal_text(id as u64)
    }
}

} // verus!
