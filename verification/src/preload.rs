//! The boot-time copy of the program images linked into the kernel into the
//! root file system: which directories and files are made, in what order, and
//! which frames are given back afterwards.
use vstd::prelude::*;
use crate::info::Arch;

verus! {

/// Program images linked into the kernel.
#[derive(Clone, Copy, Debug, PartialEq, Eq)]
pub enum Image {
    Initproc,
    Bash,
    Busybox,
    /// The musl C library, which is also its dynamic linker.
    LdMusl,
    /// The glibc dynamic linker.
    LdGlibc,
}

/// One step of the copy.
#[derive(Clone, Copy, Debug, PartialEq, Eq)]
pub enum PreloadStep {
    /// Make a directory; see `mkdir_done` for which failures stop the boot.
    Mkdir { path: &'static str, required: bool },
    /// Create the file and write the whole image into it.
    Write { path: &'static str, image: Image },
    /// Give back the frames the image was loaded in.
    Free { image: Image },
}

/// The programs every kernel carries, each freed once copied.
pub open spec fn program_steps() -> Seq<PreloadStep> {
    seq![
        PreloadStep::Write { path: "initproc", image: Image::Initproc },
        PreloadStep::Free { image: Image::Initproc },
        PreloadStep::Write { path: "bash", image: Image::Bash },
        PreloadStep::Free { image: Image::Bash },
        PreloadStep::Write { path: "busybox", image: Image::Busybox },
        PreloadStep::Free { image: Image::Busybox },
    ]
}

/// The dynamic linkers and C libraries of each architecture.
pub open spec fn library_steps(arch: Arch) -> Seq<PreloadStep> {
    match arch {
        Arch::Riscv64 => seq![
            PreloadStep::Write { path: "lib/ld-musl-riscv64.so.1", image: Image::LdMusl },
            PreloadStep::Write { path: "lib/ld-linux-riscv64-lp64d.so.1", image: Image::LdGlibc },
            PreloadStep::Mkdir { path: "musl", required: false },
            PreloadStep::Mkdir { path: "musl/lib", required: false },
            PreloadStep::Write { path: "musl/lib/libc.so", image: Image::LdMusl },
            PreloadStep::Mkdir { path: "glibc", required: false },
            PreloadStep::Mkdir { path: "glibc/lib", required: false },
            PreloadStep::Write { path: "glibc/lib/libc.so.6", image: Image::LdGlibc },
            PreloadStep::Free { image: Image::LdMusl },
            PreloadStep::Free { image: Image::LdGlibc },
        ],
        Arch::Loongarch64 => seq![
            PreloadStep::Mkdir { path: "lib64", required: true },
            PreloadStep::Write { path: "lib64/ld-musl-loongarch-lp64d.so.1", image: Image::LdMusl },
            PreloadStep::Mkdir { path: "musl", required: false },
            PreloadStep::Mkdir { path: "musl/lib", required: false },
            PreloadStep::Write { path: "musl/lib/libc.so", image: Image::LdMusl },
            PreloadStep::Free { image: Image::LdMusl },
        ],
    }
}

/// The steps of the copy on `arch`, in order.
pub fn preload_plan(arch: Arch) -> (v: Vec<PreloadStep>)
    ensures
        v@ == program_steps() + library_steps(arch),
{
    let mut v: Vec<PreloadStep> = vec![
        PreloadStep::Write { path: "initproc", image: Image::Initproc },
        PreloadStep::Free { image: Image::Initproc },
        PreloadStep::Write { path: "bash", image: Image::Bash },
        PreloadStep::Free { image: Image::Bash },
        PreloadStep::Write { path: "busybox", image: Image::Busybox },
        PreloadStep::Free { image: Image::Busybox },
    ];
    assert(v@ =~= program_steps());
    let mut libs: Vec<PreloadStep> = match arch {
        Arch::Riscv64 => vec![
            PreloadStep::Write { path: "lib/ld-musl-riscv64.so.1", image: Image::LdMusl },
            PreloadStep::Write { path: "lib/ld-linux-riscv64-lp64d.so.1", image: Image::LdGlibc },
            PreloadStep::Mkdir { path: "musl", required: false },
            PreloadStep::Mkdir { path: "musl/lib", required: false },
            PreloadStep::Write { path: "musl/lib/libc.so", image: Image::LdMusl },
            PreloadStep::Mkdir { path: "glibc", required: false },
            PreloadStep::Mkdir { path: "glibc/lib", required: false },
            PreloadStep::Write { path: "glibc/lib/libc.so.6", image: Image::LdGlibc },
            PreloadStep::Free { image: Image::LdMusl },
            PreloadStep::Free { image: Image::LdGlibc },
        ],
        Arch::Loongarch64 => vec![
            PreloadStep::Mkdir { path: "lib64", required: true },
            PreloadStep::Write { path: "lib64/ld-musl-loongarch-lp64d.so.1", image: Image::LdMusl },
            PreloadStep::Mkdir { path: "musl", required: false },
            PreloadStep::Mkdir { path: "musl/lib", required: false },
            PreloadStep::Write { path: "musl/lib/libc.so", image: Image::LdMusl },
            PreloadStep::Free { image: Image::LdMusl },
        ],
    };
    assert(libs@ =~= library_steps(arch));
    v.append(&mut libs);
    v
}

/// Whether the boot goes on after making a directory: a required one must
/// be made; for the others only the error -1 stops the boot, so that one
/// that exists already is fine.
pub fn mkdir_done(r: Result<(), isize>, required: bool) -> (ok: bool)
    ensures
        ok == (r is Ok || (!required && r != Err::<(), isize>(-1isize))),
{
    match r {
        Ok(()) => true,
        Err(e) => !required && e != -1,
    }
}

/// The frames an image loaded at `[start, end)` is given back from: from the
/// frame holding `start` up to, not including, the frame holding `end`.
pub fn image_frames(start: usize, end: usize, page_size: usize) -> (r: (usize, usize))
    requires
        page_size > 0,
    ensures
        r == (start / page_size, end / page_size),
{
    (start / page_size, end / page_size)
}

} // verus!
