//! Represents a local file.

use vstd::prelude::*;

use crate::types::RObject;

verus! {

/// Represents a local file.
#[derive(Debug)]
pub struct LocalFile {
    pub td_name: String,
    /// Local path to the locally available file part; may be empty.
    pub path: Option<String>,
    /// True, if it is possible to try to download or generate the file.
    pub can_be_downloaded: Option<bool>,
    /// True, if the file can be deleted.
    pub can_be_deleted: Option<bool>,
    /// True, if the file is currently being downloaded (or a local copy is being generated by some other means).
    pub is_downloading_active: Option<bool>,
    /// True, if the local copy is fully available.
    pub is_downloading_completed: Option<bool>,
    /// Download will be started from this offset. downloaded_prefix_size is calculated from this offset.
    pub download_offset: Option<i32>,
    /// If is_downloading_completed is false, then only some prefix of the file starting from download_offset is ready to be read. downloaded_prefix_size is the size of that prefix.
    pub downloaded_prefix_size: Option<i32>,
    /// Total downloaded file bytes. Should be used only for calculating download progress. The actual file size may be bigger, and some parts of it may contain garbage.
    pub downloaded_size: Option<i32>,
}

impl Clone for LocalFile {
    fn clone(&self) -> (r: Self)
        ensures
            r == *self,
    {
        LocalFile {
            td_name: self.td_name.clone(),
            path: match &self.path {
                Some(s) => Some(s.clone()),
                None => None,
            },
            can_be_downloaded: self.can_be_downloaded,
            can_be_deleted: self.can_be_deleted,
            is_downloading_active: self.is_downloading_active,
            is_downloading_completed: self.is_downloading_completed,
            download_offset: self.download_offset,
            downloaded_prefix_size: self.downloaded_prefix_size,
            downloaded_size: self.downloaded_size,
        }
    }
}

impl Default for LocalFile {
    fn default() -> (r: Self)
        ensures
            r.td_name@ == Seq::<char>::empty(),
            r.path is None,
            r.can_be_downloaded is None,
            r.can_be_deleted is None,
            r.is_downloading_active is None,
            r.is_downloading_completed is None,
            r.download_offset is None,
            r.downloaded_prefix_size is None,
            r.downloaded_size is None,
    {
        LocalFile { td_name: String::new(), path: None, can_be_downloaded: None, can_be_deleted: None, is_downloading_active: None, is_downloading_completed: None, download_offset: None, downloaded_prefix_size: None, downloaded_size: None }
    }
}

impl RObject for LocalFile {
    fn td_name(&self) -> &'static str {
        "localFile"
    }

    fn extra(&self) -> Option<String> {
        None
    }
}

impl LocalFile {
    pub fn _new() -> (r: Self)
        ensures
            r.td_name@ == "localFile"@,
            r.path is None,
            r.can_be_downloaded is None,
            r.can_be_deleted is None,
            r.is_downloading_active is None,
            r.is_downloading_completed is None,
            r.download_offset is None,
            r.downloaded_prefix_size is None,
            r.downloaded_size is None,
    {
        LocalFile { td_name: "localFile".to_owned(), path: None, can_be_downloaded: None, can_be_deleted: None, is_downloading_active: None, is_downloading_completed: None, download_offset: None, downloaded_prefix_size: None, downloaded_size: None }
    }

    /// Local path to the locally available file part; may be empty.
    pub fn path(&self) -> (r: Option<String>)
        ensures
            r == self.path,
    {
        match &self.path {
                Some(s) => Some(s.clone()),
                None => None,
            }
    }

    /// True, if it is possible to try to download or generate the file.
    pub fn can_be_downloaded(&self) -> (r: Option<bool>)
        ensures
            r == self.can_be_downloaded,
    {
        self.can_be_downloaded
    }

    /// True, if the file can be deleted.
    pub fn can_be_deleted(&self) -> (r: Option<bool>)
        ensures
            r == self.can_be_deleted,
    {
        self.can_be_deleted
    }

    /// True, if the file is currently being downloaded (or a local copy is being generated by some other means).
    pub fn is_downloading_active(&self) -> (r: Option<bool>)
        ensures
            r == self.is_downloading_active,
    {
        self.is_downloading_active
    }

    /// True, if the local copy is fully available.
    pub fn is_downloading_completed(&self) -> (r: Option<bool>)
        ensures
            r == self.is_downloading_completed,
    {
        self.is_downloading_completed
    }

    /// Download will be started from this offset. downloaded_prefix_size is calculated from this offset.
    pub fn download_offset(&self) -> (r: Option<i32>)
        ensures
            r == self.download_offset,
    {
        self.download_offset
    }

    /// If is_downloading_completed is false, then only some prefix of the file starting from download_offset is ready to be read. downloaded_prefix_size is the size of that prefix.
    pub fn downloaded_prefix_size(&self) -> (r: Option<i32>)
        ensures
            r == self.downloaded_prefix_size,
    {
        self.downloaded_prefix_size
    }

    /// Total downloaded file bytes. Should be used only for calculating download progress. The actual file size may be bigger, and some parts of it may contain garbage.
    pub fn downloaded_size(&self) -> (r: Option<i32>)
        ensures
            r == self.downloaded_size,
    {
        self.downloaded_size
    }

    pub fn _set_path(&mut self, path: String)
        ensures
            final(self).path == Some(path),
            final(self).can_be_downloaded == old(self).can_be_downloaded,
            final(self).can_be_deleted == old(self).can_be_deleted,
            final(self).is_downloading_active == old(self).is_downloading_active,
            final(self).is_downloading_completed == old(self).is_downloading_completed,
            final(self).download_offset == old(self).download_offset,
            final(self).downloaded_prefix_size == old(self).downloaded_prefix_size,
            final(self).downloaded_size == old(self).downloaded_size,
            final(self).td_name == old(self).td_name,
    {
        self.path = Some(path);
    }

    pub fn _set_can_be_downloaded(&mut self, can_be_downloaded: bool)
        ensures
            final(self).can_be_downloaded == Some(can_be_downloaded),
            final(self).path == old(self).path,
            final(self).can_be_deleted == old(self).can_be_deleted,
            final(self).is_downloading_active == old(self).is_downloading_active,
            final(self).is_downloading_completed == old(self).is_downloading_completed,
            final(self).download_offset == old(self).download_offset,
            final(self).downloaded_prefix_size == old(self).downloaded_prefix_size,
            final(self).downloaded_size == old(self).downloaded_size,
            final(self).td_name == old(self).td_name,
    {
        self.can_be_downloaded = Some(can_be_downloaded);
    }

    pub fn _set_can_be_deleted(&mut self, can_be_deleted: bool)
        ensures
            final(self).can_be_deleted == Some(can_be_deleted),
            final(self).path == old(self).path,
            final(self).can_be_downloaded == old(self).can_be_downloaded,
            final(self).is_downloading_active == old(self).is_downloading_active,
            final(self).is_downloading_completed == old(self).is_downloading_completed,
            final(self).download_offset == old(self).download_offset,
            final(self).downloaded_prefix_size == old(self).downloaded_prefix_size,
            final(self).downloaded_size == old(self).downloaded_size,
            final(self).td_name == old(self).td_name,
    {
        self.can_be_deleted = Some(can_be_deleted);
    }

    pub fn _set_is_downloading_active(&mut self, is_downloading_active: bool)
        ensures
            final(self).is_downloading_active == Some(is_downloading_active),
            final(self).path == old(self).path,
            final(self).can_be_downloaded == old(self).can_be_downloaded,
            final(self).can_be_deleted == old(self).can_be_deleted,
            final(self).is_downloading_completed == old(self).is_downloading_completed,
            final(self).download_offset == old(self).download_offset,
            final(self).downloaded_prefix_size == old(self).downloaded_prefix_size,
            final(self).downloaded_size == old(self).downloaded_size,
            final(self).td_name == old(self).td_name,
    {
        self.is_downloading_active = Some(is_downloading_active);
    }

    pub fn _set_is_downloading_completed(&mut self, is_downloading_completed: bool)
        ensures
            final(self).is_downloading_completed == Some(is_downloading_completed),
            final(self).path == old(self).path,
            final(self).can_be_downloaded == old(self).can_be_downloaded,
            final(self).can_be_deleted == old(self).can_be_deleted,
            final(self).is_downloading_active == old(self).is_downloading_active,
            final(self).download_offset == old(self).download_offset,
            final(self).downloaded_prefix_size == old(self).downloaded_prefix_size,
            final(self).downloaded_size == old(self).downloaded_size,
            final(self).td_name == old(self).td_name,
    {
        self.is_downloading_completed = Some(is_downloading_completed);
    }

    pub fn _set_download_offset(&mut self, download_offset: i32)
        ensures
            final(self).download_offset == Some(download_offset),
            final(self).path == old(self).path,
            final(self).can_be_downloaded == old(self).can_be_downloaded,
            final(self).can_be_deleted == old(self).can_be_deleted,
            final(self).is_downloading_active == old(self).is_downloading_active,
            final(self).is_downloading_completed == old(self).is_downloading_completed,
            final(self).downloaded_prefix_size == old(self).downloaded_prefix_size,
            final(self).downloaded_size == old(self).downloaded_size,
            final(self).td_name == old(self).td_name,
    {
        self.download_offset = Some(download_offset);
    }

    pub fn _set_downloaded_prefix_size(&mut self, downloaded_prefix_size: i32)
        ensures
            final(self).downloaded_prefix_size == Some(downloaded_prefix_size),
            final(self).path == old(self).path,
            final(self).can_be_downloaded == old(self).can_be_downloaded,
            final(self).can_be_deleted == old(self).can_be_deleted,
            final(self).is_downloading_active == old(self).is_downloading_active,
            final(self).is_downloading_completed == old(self).is_downloading_completed,
            final(self).download_offset == old(self).download_offset,
            final(self).downloaded_size == old(self).downloaded_size,
            final(self).td_name == old(self).td_name,
    {
        self.downloaded_prefix_size = Some(downloaded_prefix_size);
    }

    pub fn _set_downloaded_size(&mut self, downloaded_size: i32)
        ensures
            final(self).downloaded_size == Some(downloaded_size),
            final(self).path == old(self).path,
            final(self).can_be_downloaded == old(self).can_be_downloaded,
            final(self).can_be_deleted == old(self).can_be_deleted,
            final(self).is_downloading_active == old(self).is_downloading_active,
            final(self).is_downloading_completed == old(self).is_downloading_completed,
            final(self).download_offset == old(self).download_offset,
            final(self).downloaded_prefix_size == old(self).downloaded_prefix_size,
            final(self).td_name == old(self).td_name,
    {
        self.downloaded_size = Some(downloaded_size);
    }
}

} // verus!
