use vstd::prelude::*;
use vstd::string::StringExecFns;

verus! {

/// Which kind of backup a job requests.
#[derive(Clone, Copy, PartialEq, Eq, Structural, Debug)]
pub enum BackupVariant {
    /// Byte-for-byte copy of the source file into the destination directory.
    PlainCopy,
    /// Store the source file as a single uncompressed entry of an archive.
    Archive,
    /// Delegate to the external base-backup tool; its output is opaque here.
    ExternalFull,
}

/// All parameters of one backup job, fixed once constructed.
pub struct BackupJob {
    /// Path of the file to back up; empty for the external-full variant.
    pub source: String,
    /// Logical name of the backed-up file inside the destination.
    pub filename: String,
    /// Directory that receives the backup; must already exist.
    pub dst_dir: String,
    /// The requested kind of backup.
    pub variant: BackupVariant,
    /// The compression flag as given on the command line: it selects the
    /// archive variant for single-file jobs and maximum compression for
    /// the external tool.
    pub archive: bool,
    /// `host:port` of the telemetry collector.
    pub host: String,
    /// Shared secret embedded in every status record.
    pub password: String,
    /// Index label for the collector.
    pub index_name: String,
    /// Label naming the host the report comes from.
    pub source_host: String,
    /// Database connection string for the external-full variant; empty if unused.
    pub dbname: String,
    /// Whether verbose flags are passed to the external tool.
    pub debug: bool,
}

/// Mathematical model of a job: each string as its character sequence.
pub ghost struct BackupJobView {
    pub source: Seq<char>,
    pub filename: Seq<char>,
    pub dst_dir: Seq<char>,
    pub variant: BackupVariant,
    pub archive: bool,
    pub host: Seq<char>,
    pub password: Seq<char>,
    pub index_name: Seq<char>,
    pub source_host: Seq<char>,
    pub dbname: Seq<char>,
    pub debug: bool,
}

impl BackupJob {
    /// A single-file job: the compression flag selects between a plain
    /// copy and a store-only archive.  The database connection string
    /// is unused for this kind and left empty, and no verbose flags are
    /// requested.
    pub fn wal_job(
        source: String,
        filename: String,
        dst_dir: String,
        zip: bool,
        host: String,
        password: String,
        index_name: String,
        source_host: String,
    ) -> (r: BackupJob)
        ensures
            r.source == source,
            r.filename == filename,
            r.dst_dir == dst_dir,
            r.variant == (if zip {
                BackupVariant::Archive
            } else {
                BackupVariant::PlainCopy
            }),
            r.archive == zip,
            r.host == host,
            r.password == password,
            r.index_name == index_name,
            r.source_host == source_host,
            r.dbname@ == Seq::<char>::empty(),
            r.debug == false,
    {
        BackupJob {
            source,
            filename,
            dst_dir,
            variant: if zip {
                BackupVariant::Archive
            } else {
                BackupVariant::PlainCopy
            },
            archive: zip,
            host,
            password,
            index_name,
            source_host,
            dbname: String::new(),
            debug: false,
        }
    }

    /// A job that delegates to the external base-backup tool.  It has
    /// no single source file, so the source is empty and the logical
    /// filename is the fixed marker "FULL COPY"; the compression flag
    /// asks the tool for maximum compression.
    pub fn full_job(
        dst_dir: String,
        zip: bool,
        dbname: String,
        debug: bool,
        host: String,
        password: String,
        index_name: String,
        source_host: String,
    ) -> (r: BackupJob)
        ensures
            r.source@ == Seq::<char>::empty(),
            r.filename@ == "FULL COPY"@,
            r.dst_dir == dst_dir,
            r.variant == BackupVariant::ExternalFull,
            r.archive == zip,
            r.host == host,
            r.password == password,
            r.index_name == index_name,
            r.source_host == source_host,
            r.dbname == dbname,
            r.debug == debug,
    {
        BackupJob {
            source: String::new(),
            filename: String::from_str("FULL COPY"),
            dst_dir,
            variant: BackupVariant::ExternalFull,
            archive: zip,
            host,
            password,
            index_name,
            source_host,
            dbname,
            debug,
        }
    }
}

impl View for BackupJob {
    type V = BackupJobView;

    open spec fn view(&self) -> BackupJobView {
        BackupJobView {
            source: self.source@,
            filename: self.filename@,
            dst_dir: self.dst_dir@,
            variant: self.variant,
            archive: self.archive,
            host: self.host@,
            password: self.password@,
            index_name: self.index_name@,
            source_host: self.source_host@,
            dbname: self.dbname@,
            debug: self.debug,
        }
    }
}

} // verus!
