pub mod jellyseerr;
pub mod radarr;
pub mod sonarr;
