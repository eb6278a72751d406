use crate::error::Error;
use crate::models::data_size::DataSize;
use crate::models::environment::Environment;
use crate::models::instance::{snapshot_names, Instance, InstanceModel};
use crate::platform::system::{command_view, System};
use crate::platform::system_command::SystemCommand;
use crate::qemu::image_info::{image_info_report, info_view, ImageInfo};
use crate::qemu::json::utf8_text;
use crate::text::{decimal, decimal_string};
use vstd::prelude::*;

verus! {

/// The error a `qemu-img` call reports: a missing program is a missing
/// QEMU, every other error passes through.
pub open spec fn qemu_error(error: Error) -> Error {
    match error {
        Error::SystemCommandNotFound(_) => Error::QemuNotFound,
        other => other,
    }
}

/// What a `qemu-img` call that writes nothing of interest returns.
pub open spec fn qemu_outcome(result: Result<Vec<u8>, Error>) -> Result<(), Error> {
    match result {
        Ok(_) => Ok(()),
        Err(e) => Err(qemu_error(e)),
    }
}

/// The instance after a disk report: the report's sizes and snapshots,
/// or the instance unchanged when there is no report.
pub open spec fn with_disk_info(
    before: InstanceModel,
    info: Option<(u64, u64, Seq<Seq<char>>)>,
) -> InstanceModel {
    match info {
        Some((actual, virtual_size, snapshots)) => InstanceModel {
            disk_used: Some((actual as usize) as nat),
            disk_capacity: (virtual_size as usize) as nat,
            snapshots: snapshots,
            ..before
        },
        None => before,
    }
}

/// Law: a report puts its actual size into the instance's used size, its
/// virtual size into its capacity and its snapshots into its snapshot list,
/// and changes nothing else; without a report the instance stays as it was.
pub proof fn law_report_sizes_land_in_place(before: InstanceModel, info: Option<(u64, u64, Seq<Seq<char>>)>)
    ensures
        info matches Some((actual, virtual_size, snapshots)) ==> {
            let after = with_disk_info(before, info);
            &&& after.disk_used == Some((actual as usize) as nat)
            &&& after.disk_capacity == (virtual_size as usize) as nat
            &&& after.snapshots == snapshots
            &&& after.name == before.name && after.arch == before.arch && after.user == before.user
            &&& after.cpus == before.cpus && after.mem == before.mem && after.ssh_port == before.ssh_port
        },
        info is None ==> with_disk_info(before, info) == before,
{
}

/// The info command for an instance: `qemu-img info --force-share --output
/// json` on the instance's disk image.
pub open spec fn info_command_view(env: Environment, instance: Instance) -> (Seq<char>, Seq<Seq<char>>) {
    ("qemu-img"@, seq!["info"@, "--force-share"@, "--output"@, "json"@,
        env.data_dir_view() + "/machines/"@ + instance.name@ + "/machine.img"@])
}

/// The report that the output of `qemu-img info` reads as: it must be UTF-8
/// text holding a JSON report.
pub open spec fn info_of_output(stdout: Seq<u8>) -> Option<(u64, u64, Seq<Seq<char>>)> {
    if vstd::utf8::valid_utf8(stdout) {
        image_info_report(vstd::utf8::decode_utf8(stdout))
    } else {
        None
    }
}

/// Runs `qemu-img` on the host.
pub struct QemuImg<'a, S: System> {
    system: &'a mut S,
}

/// The report that the host's answer to the info command reads as: `None`
/// when the command failed.
pub open spec fn info_of_answer(answer: Result<Vec<u8>, Error>) -> Option<(u64, u64, Seq<Seq<char>>)> {
    match answer {
        Ok(stdout) => info_of_output(stdout@),
        Err(_) => None,
    }
}

impl<'a, S: System> QemuImg<'a, S> {
    pub fn new(system: &'a mut S) -> (r: QemuImg<'a, S>)
        ensures
            r.host() == *old(system),
    {
        QemuImg { system }
    }

    /// The host the commands run on.
    pub closed spec fn host(&self) -> S {
        *self.system
    }

    /// The commands the host has run, in order.
    pub open spec fn commands(&self) -> Seq<(Seq<char>, Seq<Seq<char>>)> {
        self.host().commands_run()
    }

    /// What the host answered to each command, in order.
    pub open spec fn answers(&self) -> Seq<Result<Vec<u8>, Error>> {
        self.host().answers_given()
    }

    fn run(&mut self, command: &SystemCommand) -> (r: Result<Vec<u8>, Error>)
        ensures
            final(self).commands() == old(self).commands().push(command_view(*command)),
            final(self).answers() == old(self).answers().push(r),
            final(self).host().terminal_text() == old(self).host().terminal_text(),
            final(self).host().pending_lines() == old(self).host().pending_lines(),
    {
        self.system.run_command(command)
    }

    /// A `qemu-img` command without arguments.
    pub fn command() -> (r: SystemCommand)
        ensures
            r.program_view() == "qemu-img"@,
            r.args_view() == Seq::<Seq<char>>::empty(),
    {
        SystemCommand::new("qemu-img")
    }

    /// A missing program is a missing QEMU; other errors pass through.
    pub fn map_error(error: Error) -> (r: Error)
        ensures
            r == qemu_error(error),
    {
        match error {
            Error::SystemCommandNotFound(_) => Error::QemuNotFound,
            other => other,
        }
    }

    /// The outcome of a call whose output does not matter.
    pub fn finish(result: Result<Vec<u8>, Error>) -> (r: Result<(), Error>)
        ensures
            r == qemu_outcome(result),
    {
        match result {
            Ok(_) => Ok(()),
            Err(e) => Err(Self::map_error(e)),
        }
    }

    /// `qemu-img info --force-share --output json <instance image>`.
    pub fn info_command(env: &Environment, instance: &Instance) -> (r: SystemCommand)
        ensures
            r.program_view() == "qemu-img"@,
            r.args_view() == seq!["info"@, "--force-share"@, "--output"@, "json"@,
                env.data_dir_view() + "/machines/"@ + instance.name@ + "/machine.img"@],
    {
        let mut command = Self::command();
        command.arg("info");
        command.arg("--force-share");
        command.arg("--output");
        command.arg("json");
        let file = env.get_instance_image_file(instance.name.as_str());
        command.arg(file.as_str());
        command
    }

    /// `qemu-img create -q -f qcow2 -F qcow2 -b <base> <image>`.
    pub fn overlay_command(base_image: &str, image: &str) -> (r: SystemCommand)
        ensures
            r.program_view() == "qemu-img"@,
            r.args_view() == seq!["create"@, "-q"@, "-f"@, "qcow2"@, "-F"@, "qcow2"@, "-b"@,
                base_image@, image@],
    {
        let mut command = Self::command();
        command.arg("create");
        command.arg("-q");
        command.arg("-f");
        command.arg("qcow2");
        command.arg("-F");
        command.arg("qcow2");
        command.arg("-b");
        command.arg(base_image);
        command.arg(image);
        command
    }

    /// `qemu-img resize <image> <size>`.
    pub fn resize_command(image: &str, size: u64) -> (r: SystemCommand)
        ensures
            r.program_view() == "qemu-img"@,
            r.args_view() == seq!["resize"@, image@, decimal(size as nat)],
    {
        let mut command = Self::command();
        command.arg("resize");
        command.arg(image);
        let size = decimal_string(size);
        command.arg(size.as_str());
        command
    }

    /// `qemu-img snapshot <action> <name> <image>`.
    pub fn snapshot_command(image: &str, name: &str, action: &str) -> (r: SystemCommand)
        ensures
            r.program_view() == "qemu-img"@,
            r.args_view() == seq!["snapshot"@, action@, name@, image@],
    {
        let mut command = Self::command();
        command.arg("snapshot");
        command.arg(action);
        command.arg(name);
        command.arg(image);
        command
    }

    /// Reads a report from what `qemu-img info` wrote: it must be UTF-8
    /// text holding a JSON report.
    pub fn parse_info(stdout: Vec<u8>) -> (r: Option<ImageInfo>)
        ensures
            info_view(r) == info_of_output(stdout@),
    {
        match utf8_text(stdout) {
            Some(text) => ImageInfo::from_json(text.as_str()),
            None => None,
        }
    }

    // Anything that keeps the info from arriving, from a host without qemu to
    // an image the tool cannot read, leaves the caller with what it already
    // knows about the disk.
    /// Runs the info command and reads its report; `None` when the command
    /// fails or its output is not a report.
    pub fn get_image_info(&mut self, env: &Environment, instance: &Instance) -> (r: Option<ImageInfo>)
        ensures
            final(self).commands() == old(self).commands().push(info_command_view(*env, *instance)),
            final(self).answers().drop_last() == old(self).answers(),
            final(self).answers().len() == old(self).answers().len() + 1,
            info_view(r) == info_of_answer(final(self).answers().last()),
    {
        let command = Self::info_command(env, instance);
        match self.run(&command) {
            Ok(stdout) => Self::parse_info(stdout),
            Err(_) => None,
        }
    }

    /// Takes the sizes and snapshots of a report into the instance; without
    /// a report the instance stays as it is.
    pub fn apply_disk_info(instance: &mut Instance, info: Option<ImageInfo>)
        ensures
            final(instance)@ == with_disk_info(old(instance)@, info_view(info)),
            info matches Some(i) ==> final(instance)@.disk_used == Some((i.actual_size as usize) as nat)
                && final(instance)@.disk_capacity == (i.virtual_size as usize) as nat
                && final(instance)@.snapshots == snapshot_names(i.snapshots@)
                && final(instance)@.name == old(instance)@.name,
            info is None ==> final(instance)@ == old(instance)@,
    {
        if let Some(info) = info {
            instance.disk_used = Some(DataSize::new(info.actual_size as usize));
            instance.disk_capacity = DataSize::new(info.virtual_size as usize);
            instance.snapshots = info.snapshots;
        }
    }

    // Keeps the current sizes when the image cannot be read.
    /// Reads the disk report of the instance's image into the instance.
    pub fn read_disk_info(&mut self, env: &Environment, instance: &mut Instance)
        ensures
            final(self).commands() == old(self).commands().push(info_command_view(*env, *old(instance))),
            final(self).answers().drop_last() == old(self).answers(),
            final(self).answers().len() == old(self).answers().len() + 1,
            final(instance)@ == with_disk_info(old(instance)@, info_of_answer(final(self).answers().last())),
            info_of_answer(final(self).answers().last()) matches Some((actual, virtual_size, snapshots))
                ==> final(instance)@.disk_used == Some((actual as usize) as nat)
                && final(instance)@.disk_capacity == (virtual_size as usize) as nat
                && final(instance)@.snapshots == snapshots,
            info_of_answer(final(self).answers().last()) is None ==> final(instance)@ == old(instance)@,
    {
        let info = self.get_image_info(env, instance);
        let ghost seen = info_view(info);
        Self::apply_disk_info(instance, info);
        assert(final(instance)@ == with_disk_info(old(instance)@, seen));
    }

    /// Creates `image` as a qcow2 overlay backed by `base_image`.
    pub fn create_overlay(&mut self, base_image: &str, image: &str) -> (r: Result<(), Error>)
        ensures
            final(self).commands() == old(self).commands().push(("qemu-img"@, seq!["create"@, "-q"@, "-f"@, "qcow2"@, "-F"@, "qcow2"@, "-b"@, base_image@, image@])),
            final(self).answers().drop_last() == old(self).answers(),
            final(self).answers().len() == old(self).answers().len() + 1,
            r == qemu_outcome(final(self).answers().last()),
            !(r matches Err(Error::SystemCommandNotFound(_))),
    {
        let command = Self::overlay_command(base_image, image);
        Self::finish(self.run(&command))
    }

    /// Resizes `image` to `size` bytes.
    pub fn resize(&mut self, image: &str, size: u64) -> (r: Result<(), Error>)
        ensures
            final(self).commands() == old(self).commands().push(("qemu-img"@, seq!["resize"@, image@, decimal(size as nat)])),
            final(self).answers().drop_last() == old(self).answers(),
            final(self).answers().len() == old(self).answers().len() + 1,
            r == qemu_outcome(final(self).answers().last()),
            !(r matches Err(Error::SystemCommandNotFound(_))),
    {
        let command = Self::resize_command(image, size);
        Self::finish(self.run(&command))
    }

    /// Takes an internal snapshot `name` of `image`.
    pub fn create_snapshot(&mut self, image: &str, name: &str) -> (r: Result<(), Error>)
        ensures
            final(self).commands() == old(self).commands().push(("qemu-img"@, seq!["snapshot"@, "-c"@, name@, image@])),
            final(self).answers().drop_last() == old(self).answers(),
            final(self).answers().len() == old(self).answers().len() + 1,
            r == qemu_outcome(final(self).answers().last()),
            !(r matches Err(Error::SystemCommandNotFound(_))),
    {
        self.run_snapshot_command(image, name, "-c")
    }

    /// Reverts `image` to its internal snapshot `name`.
    pub fn restore_snapshot(&mut self, image: &str, name: &str) -> (r: Result<(), Error>)
        ensures
            final(self).commands() == old(self).commands().push(("qemu-img"@, seq!["snapshot"@, "-a"@, name@, image@])),
            final(self).answers().drop_last() == old(self).answers(),
            final(self).answers().len() == old(self).answers().len() + 1,
            r == qemu_outcome(final(self).answers().last()),
            !(r matches Err(Error::SystemCommandNotFound(_))),
    {
        self.run_snapshot_command(image, name, "-a")
    }

    /// Deletes the internal snapshot `name` of `image`.
    pub fn delete_snapshot(&mut self, image: &str, name: &str) -> (r: Result<(), Error>)
        ensures
            final(self).commands() == old(self).commands().push(("qemu-img"@, seq!["snapshot"@, "-d"@, name@, image@])),
            final(self).answers().drop_last() == old(self).answers(),
            final(self).answers().len() == old(self).answers().len() + 1,
            r == qemu_outcome(final(self).answers().last()),
            !(r matches Err(Error::SystemCommandNotFound(_))),
    {
        self.run_snapshot_command(image, name, "-d")
    }

    fn run_snapshot_command(&mut self, image: &str, name: &str, action: &str) -> (r: Result<(), Error>)
        ensures
            final(self).commands() == old(self).commands().push(("qemu-img"@, seq!["snapshot"@, action@, name@, image@])),
            final(self).answers().drop_last() == old(self).answers(),
            final(self).answers().len() == old(self).answers().len() + 1,
            r == qemu_outcome(final(self).answers().last()),
    {
        let command = Self::snapshot_command(image, name, action);
        Self::finish(self.run(&command))
    }
}

} // verus!
