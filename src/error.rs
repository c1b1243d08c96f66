use vstd::prelude::*;

verus! {

/// Why a save or a load did not complete.
pub enum StoreError {
    /// The platform supplied no per-user data directory.
    LocationUnavailable,
    /// Creating the storage directory failed; holds the filesystem's message.
    DirectoryCreateFailed(String),
    /// Writing the document failed; holds the filesystem's message.
    WriteFailed(String),
    /// Reading the document failed; holds the filesystem's message.
    ReadFailed(String),
}

/// The value of a `StoreError`, with each cause as a character sequence.
pub enum Fault {
    LocationUnavailable,
    DirectoryCreateFailed(Seq<char>),
    WriteFailed(Seq<char>),
    ReadFailed(Seq<char>),
}

impl View for StoreError {
    type V = Fault;

    open spec fn view(&self) -> Fault {
        match self {
            StoreError::LocationUnavailable => Fault::LocationUnavailable,
            StoreError::DirectoryCreateFailed(c) => Fault::DirectoryCreateFailed(c@),
            StoreError::WriteFailed(c) => Fault::WriteFailed(c@),
            StoreError::ReadFailed(c) => Fault::ReadFailed(c@),
        }
    }
}

pub open spec fn location_unavailable_text() -> Seq<char> {
    "无法获取应用数据目录"@
}

pub open spec fn create_failed_prefix() -> Seq<char> {
    "创建目录失败: "@
}

pub open spec fn write_failed_prefix() -> Seq<char> {
    "写入文件失败: "@
}

pub open spec fn read_failed_prefix() -> Seq<char> {
    "读取文件失败: "@
}

/// The human-readable message shown to the host for a fault: a fixed
/// phrase per kind, followed by the filesystem's own message where there is one.
pub open spec fn fault_message(f: Fault) -> Seq<char> {
    match f {
        Fault::LocationUnavailable => location_unavailable_text(),
        Fault::DirectoryCreateFailed(c) => create_failed_prefix() + c,
        Fault::WriteFailed(c) => write_failed_prefix() + c,
        Fault::ReadFailed(c) => read_failed_prefix() + c,
    }
}

impl StoreError {
    /// The message handed to the host in place of the structured error.
    pub fn message(&self) -> (r: String)
        ensures
            r@ == fault_message(self@),
    {
        match self {
            StoreError::LocationUnavailable => {
                proof { reveal_strlit("无法获取应用数据目录"); }
                String::from_str("无法获取应用数据目录")
            },
            StoreError::DirectoryCreateFailed(c) => {
                proof { reveal_strlit("创建目录失败: "); }
                let mut m = String::from_str("创建目录失败: ");
                m.append(c.as_str());
                m
            },
            StoreError::WriteFailed(c) => {
                proof { reveal_strlit("写入文件失败: "); }
                let mut m = String::from_str("写入文件失败: ");
                m.append(c.as_str());
                m
            },
            StoreError::ReadFailed(c) => {
                proof { reveal_strlit("读取文件失败: "); }
                let mut m = String::from_str("读取文件失败: ");
                m.append(c.as_str());
                m
            },
        }
    }

}

} // verus!
