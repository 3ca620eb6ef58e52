use vstd::prelude::*;

verus! {

/// Every piece of user-interface copy that the editor translates.
#[derive(Debug, Clone, Copy, PartialEq, Eq, Hash, Structural)]
pub enum UiText {
    MenuTitle,
    MenuTabs,
    MenuPanels,
    MenuEdit,
    MenuHelp,
    MenuConfig,
    TabTheme,
    TabProject,
    PanelTokenList,
    PanelThemeParams,
    PanelPreviewSampleCode,
    PanelPalette,
    PanelResolvedTokens,
    PanelResolvedTokensSecondary,
    PanelInspector,
    PanelInteractionInspector,
    PanelProjectConfig,
    PanelExportTargets,
    PanelEditorPreferences,
    FieldProject,
    FieldExports,
    FieldOutputs,
    InspectorToken,
    InspectorColor,
    InspectorSummary,
    InspectorRuleType,
    InspectorSource,
    InspectorColorA,
    InspectorColorB,
    InspectorBlend,
    InspectorOperation,
    InspectorAmount,
    InspectorHex,
    ProjectConfigFooter,
    ExportTargetsFooter,
    EditorPreferencesFooter,
    ConfigTitle,
    ConfigSectionProjectSaved,
    ConfigSectionExportSaved,
    ConfigSectionEditorLocal,
    ConfigFooterEditHint,
    ConfigFooterProjectSaved,
    ConfigFooterEditorLocal,
    ConfigFooterCloseHint,
    HelpTitle,
    HelpFooterScroll,
    HelpFooterKeymap,
    NumericEditorTitle,
    NumericFooter,
    SourcePickerTitle,
    HelpSectionGlobal,
    HelpSectionWorkspace,
    HelpSectionPreview,
    HelpSectionPickerInput,
    HelpShortcutHelpLabel,
    HelpShortcutHelpDesc,
    HelpConfigLabel,
    HelpConfigDesc,
    HelpSaveProjectLabel,
    HelpSaveProjectDesc,
    HelpLoadProjectLabel,
    HelpLoadProjectDesc,
    HelpExportLabel,
    HelpExportDesc,
    HelpResetLabel,
    HelpResetDesc,
    HelpQuitLabel,
    HelpQuitDesc,
    HelpSwitchTabsLabel,
    HelpSwitchTabsDesc,
    HelpFocusPanelLabel,
    HelpFocusPanelDesc,
    HelpCyclePanelsLabel,
    HelpCyclePanelsDesc,
    HelpMoveSelectionLabel,
    HelpMoveSelectionDesc,
    HelpAdjustValueLabel,
    HelpAdjustValueDesc,
    HelpActivateLabel,
    HelpActivateDesc,
    HelpPreviewModeLabel,
    HelpPreviewModeDesc,
    HelpPreviewCaptureLabel,
    HelpPreviewCaptureDesc,
    HelpPreviewReleaseLabel,
    HelpPreviewReleaseDesc,
    HelpTypeFilterLabel,
    HelpTypeFilterDesc,
    HelpDeleteBackwardLabel,
    HelpDeleteBackwardDesc,
    HelpClearLabel,
    HelpClearDesc,
    HelpNudgeNumericLabel,
    HelpNudgeNumericDesc,
    HelpApplyLabel,
    HelpApplyDesc,
    HelpCancelLabel,
    HelpCancelDesc,
    KeymapPresetTitle,
    KeymapStandardLabel,
    KeymapStandardDesc,
    KeymapVimLabel,
    KeymapVimDesc,
    ConfigLabelProjectName,
    ConfigLabelTarget,
    ConfigLabelOutput,
    ConfigLabelTemplate,
    ConfigLabelProjectFile,
    ConfigLabelAutoLoad,
    ConfigLabelAutoSave,
    ConfigLabelStartupFocus,
    ConfigLabelKeymap,
    ConfigLabelLanguage,
    ConfigValueLoadProjectOnStartup,
    ConfigValueSaveProjectBeforeExport,
    ConfigValueMissingExportTarget,
    SummaryNoneEnabled,
    SummaryOneEnabledNamed,
    SummaryManyEnabledNamed,
    SummaryManyEnabledCount,
    OutputsNoneEnabled,
    OutputsOnePath,
    OutputsManyPaths,
    ExportStatusNoneEnabled,
    ExportStatusOneEnabled,
    ExportStatusNamed,
    ExportStatusCount,
    StatusBarExports,
    FocusTokens,
    FocusParams,
    FocusInspector,
    LocaleEnglish,
    LocaleChineseSimplified,
    SurfaceMainWindow,
    SurfaceInputEditor,
    SurfaceSourcePicker,
    SurfaceConfigDialog,
    SurfaceShortcutHelp,
    PreviewModeCode,
    PreviewModeShell,
    PreviewModeLazygit,
    PreviewHeaderSemanticSample,
    PreviewHeaderSwitchModes,
    PreviewHeaderCaptureActive,
    PreviewWaitingTitle,
    PreviewWaitingDetail,
    PreviewExitedTitle,
    WindowTitle,
    GuiSectionThemeParameters,
    GuiSectionPalette,
    GuiSectionPreview,
    GuiSectionInspector,
    GuiSectionEditorPreferences,
    GuiSectionActions,
    GuiButtonConfig,
    GuiButtonSave,
    GuiButtonLoad,
    GuiButtonExport,
    GuiButtonReset,
    GuiSheetTitle,
    GuiSheetSubtitle,
    GuiButtonDone,
    GuiSheetSectionProject,
    GuiSheetSectionExportTargets,
    GuiSheetSectionEditorPreferences,
    GuiColorPlaceholder,
    StatusReady,
    StatusInputCancelled,
    StatusSourcePickerClosed,
    StatusConfigOpened,
    StatusConfigClosed,
    StatusHelpOpened,
    StatusHelpClosed,
    StatusSavedProject,
    StatusSaveFailed,
    StatusLoadedProject,
    StatusLoadRecomputeFailed,
    StatusLoadFailed,
    StatusExportNoOutput,
    StatusExportedSingle,
    StatusExportedCount,
    StatusExportFailed,
    StatusEditorConfigSaveFailed,
    StatusFocusedSurface,
    StatusSurfaceNavigationActive,
    StatusPreviewModeChanged,
    StatusPreviewCaptureActive,
    StatusPreviewCaptureReleased,
    StatusPreviewProcessExited,
    StatusSwitchedTab,
    StatusFocusedPanel,
    StatusTabOnlyHasPanels,
    StatusSelectedToken,
    StatusSelectedParam,
    StatusPanelNoListSelection,
    StatusPanelNoEditableFields,
    StatusSelectedField,
    StatusControlNoActivation,
    StatusFailedToUpdateField,
    StatusUpdatedFieldValue,
    StatusUpdatedEntity,
    StatusRuleChangeRejected,
    StatusEditingNumeric,
    StatusEditingText,
    StatusSelectingSource,
    StatusInvalidCharacter,
    ErrorControlNoTextInput,
    ErrorNoSourcesMatch,
    StatusSourceApplied,
    StatusSourceChangeRejected,
    StatusBlendUpdated,
    StatusAmountUpdated,
    StatusFixedColorUpdated,
    StatusResetDefaults,
    StatusResetFailed,
    ErrorProjectNameEmpty,
    StatusProjectNameUpdated,
    StatusExportTargetEnabled,
    StatusExportTargetDisabled,
    StatusMissingExportTarget,
    StatusExportOutputUpdated,
    StatusExportTemplateUpdated,
    ErrorExportNoTemplatePath,
    StatusProjectFilePathUpdated,
    StatusAutoLoadEnabled,
    StatusAutoLoadDisabled,
    StatusAutoSaveEnabled,
    StatusAutoSaveDisabled,
    StatusStartupFocusUpdated,
    StatusKeymapUpdated,
    StatusLanguageUpdated,
    ErrorInputEmpty,
    ErrorUseToggleChoicePreference,
    ErrorToggleExportTarget,
    ErrorInvalidHexColor,
    ErrorInvalidNumber,
    StatusAutoLoadRecomputeFailed,
    StatusAutoLoadedProject,
    StatusAutoLoadFailed,
    StatusEditorConfigLoadFailed,
    FieldProjectNameLower,
    FieldExportTarget,
    FieldExportOutputPath,
    FieldExportTemplatePath,
    FieldProjectFilePath,
    FieldAutoLoadProject,
    FieldAutoSaveProject,
    FieldStartupFocusLower,
    FieldKeymapPresetLower,
    FieldLanguageLower,
    FooterFilterSources,
    FooterNumericEditorOpen,
    FooterFixedColorInput,
    FooterTextInput,
    FooterGenericInput,
    FooterReferenceQuick,
    FooterFixedColorQuick,
    FooterMixQuick,
    FooterAdjustQuick,
    FooterRuleKindQuick,
    FooterAdjustOpQuick,
    FooterParamQuick,
    FooterDefaultQuick,
}

impl UiText {
    /// The Fluent message identifier of `self`.
    pub open spec fn spec_key(self) -> Seq<char> {
        match self {
            UiText::MenuTitle => "menu-title"@,
            UiText::MenuTabs => "menu-tabs"@,
            UiText::MenuPanels => "menu-panels"@,
            UiText::MenuEdit => "menu-edit"@,
            UiText::MenuHelp => "menu-help"@,
            UiText::MenuConfig => "menu-config"@,
            UiText::TabTheme => "tab-theme"@,
            UiText::TabProject => "tab-project"@,
            UiText::PanelTokenList => "panel-token-list"@,
            UiText::PanelThemeParams => "panel-theme-params"@,
            UiText::PanelPreviewSampleCode => "panel-preview-sample-code"@,
            UiText::PanelPalette => "panel-palette"@,
            UiText::PanelResolvedTokens => "panel-resolved-tokens"@,
            UiText::PanelResolvedTokensSecondary => "panel-resolved-tokens-secondary"@,
            UiText::PanelInspector => "panel-inspector"@,
            UiText::PanelInteractionInspector => "panel-interaction-inspector"@,
            UiText::PanelProjectConfig => "panel-project-config"@,
            UiText::PanelExportTargets => "panel-export-targets"@,
            UiText::PanelEditorPreferences => "panel-editor-preferences"@,
            UiText::FieldProject => "field-project"@,
            UiText::FieldExports => "field-exports"@,
            UiText::FieldOutputs => "field-outputs"@,
            UiText::InspectorToken => "inspector-token"@,
            UiText::InspectorColor => "inspector-color"@,
            UiText::InspectorSummary => "inspector-summary"@,
            UiText::InspectorRuleType => "inspector-rule-type"@,
            UiText::InspectorSource => "inspector-source"@,
            UiText::InspectorColorA => "inspector-color-a"@,
            UiText::InspectorColorB => "inspector-color-b"@,
            UiText::InspectorBlend => "inspector-blend"@,
            UiText::InspectorOperation => "inspector-operation"@,
            UiText::InspectorAmount => "inspector-amount"@,
            UiText::InspectorHex => "inspector-hex"@,
            UiText::ProjectConfigFooter => "project-config-footer"@,
            UiText::ExportTargetsFooter => "export-targets-footer"@,
            UiText::EditorPreferencesFooter => "editor-preferences-footer"@,
            UiText::ConfigTitle => "config-title"@,
            UiText::ConfigSectionProjectSaved => "config-section-project-saved"@,
            UiText::ConfigSectionExportSaved => "config-section-export-saved"@,
            UiText::ConfigSectionEditorLocal => "config-section-editor-local"@,
            UiText::ConfigFooterEditHint => "config-footer-edit-hint"@,
            UiText::ConfigFooterProjectSaved => "config-footer-project-saved"@,
            UiText::ConfigFooterEditorLocal => "config-footer-editor-local"@,
            UiText::ConfigFooterCloseHint => "config-footer-close-hint"@,
            UiText::HelpTitle => "help-title"@,
            UiText::HelpFooterScroll => "help-footer-scroll"@,
            UiText::HelpFooterKeymap => "help-footer-keymap"@,
            UiText::NumericEditorTitle => "numeric-editor-title"@,
            UiText::NumericFooter => "numeric-footer"@,
            UiText::SourcePickerTitle => "source-picker-title"@,
            UiText::HelpSectionGlobal => "help-section-global"@,
            UiText::HelpSectionWorkspace => "help-section-workspace"@,
            UiText::HelpSectionPreview => "help-section-preview"@,
            UiText::HelpSectionPickerInput => "help-section-picker-input"@,
            UiText::HelpShortcutHelpLabel => "help-shortcut-help-label"@,
            UiText::HelpShortcutHelpDesc => "help-shortcut-help-desc"@,
            UiText::HelpConfigLabel => "help-config-label"@,
            UiText::HelpConfigDesc => "help-config-desc"@,
            UiText::HelpSaveProjectLabel => "help-save-project-label"@,
            UiText::HelpSaveProjectDesc => "help-save-project-desc"@,
            UiText::HelpLoadProjectLabel => "help-load-project-label"@,
            UiText::HelpLoadProjectDesc => "help-load-project-desc"@,
            UiText::HelpExportLabel => "help-export-label"@,
            UiText::HelpExportDesc => "help-export-desc"@,
            UiText::HelpResetLabel => "help-reset-label"@,
            UiText::HelpResetDesc => "help-reset-desc"@,
            UiText::HelpQuitLabel => "help-quit-label"@,
            UiText::HelpQuitDesc => "help-quit-desc"@,
            UiText::HelpSwitchTabsLabel => "help-switch-tabs-label"@,
            UiText::HelpSwitchTabsDesc => "help-switch-tabs-desc"@,
            UiText::HelpFocusPanelLabel => "help-focus-panel-label"@,
            UiText::HelpFocusPanelDesc => "help-focus-panel-desc"@,
            UiText::HelpCyclePanelsLabel => "help-cycle-panels-label"@,
            UiText::HelpCyclePanelsDesc => "help-cycle-panels-desc"@,
            UiText::HelpMoveSelectionLabel => "help-move-selection-label"@,
            UiText::HelpMoveSelectionDesc => "help-move-selection-desc"@,
            UiText::HelpAdjustValueLabel => "help-adjust-value-label"@,
            UiText::HelpAdjustValueDesc => "help-adjust-value-desc"@,
            UiText::HelpActivateLabel => "help-activate-label"@,
            UiText::HelpActivateDesc => "help-activate-desc"@,
            UiText::HelpPreviewModeLabel => "help-preview-mode-label"@,
            UiText::HelpPreviewModeDesc => "help-preview-mode-desc"@,
            UiText::HelpPreviewCaptureLabel => "help-preview-capture-label"@,
            UiText::HelpPreviewCaptureDesc => "help-preview-capture-desc"@,
            UiText::HelpPreviewReleaseLabel => "help-preview-release-label"@,
            UiText::HelpPreviewReleaseDesc => "help-preview-release-desc"@,
            UiText::HelpTypeFilterLabel => "help-type-filter-label"@,
            UiText::HelpTypeFilterDesc => "help-type-filter-desc"@,
            UiText::HelpDeleteBackwardLabel => "help-delete-backward-label"@,
            UiText::HelpDeleteBackwardDesc => "help-delete-backward-desc"@,
            UiText::HelpClearLabel => "help-clear-label"@,
            UiText::HelpClearDesc => "help-clear-desc"@,
            UiText::HelpNudgeNumericLabel => "help-nudge-numeric-label"@,
            UiText::HelpNudgeNumericDesc => "help-nudge-numeric-desc"@,
            UiText::HelpApplyLabel => "help-apply-label"@,
            UiText::HelpApplyDesc => "help-apply-desc"@,
            UiText::HelpCancelLabel => "help-cancel-label"@,
            UiText::HelpCancelDesc => "help-cancel-desc"@,
            UiText::KeymapPresetTitle => "keymap-preset-title"@,
            UiText::KeymapStandardLabel => "keymap-standard-label"@,
            UiText::KeymapStandardDesc => "keymap-standard-desc"@,
            UiText::KeymapVimLabel => "keymap-vim-label"@,
            UiText::KeymapVimDesc => "keymap-vim-desc"@,
            UiText::ConfigLabelProjectName => "config-label-project-name"@,
            UiText::ConfigLabelTarget => "config-label-target"@,
            UiText::ConfigLabelOutput => "config-label-output"@,
            UiText::ConfigLabelTemplate => "config-label-template"@,
            UiText::ConfigLabelProjectFile => "config-label-project-file"@,
            UiText::ConfigLabelAutoLoad => "config-label-auto-load"@,
            UiText::ConfigLabelAutoSave => "config-label-auto-save"@,
            UiText::ConfigLabelStartupFocus => "config-label-startup-focus"@,
            UiText::ConfigLabelKeymap => "config-label-keymap"@,
            UiText::ConfigLabelLanguage => "config-label-language"@,
            UiText::ConfigValueLoadProjectOnStartup => "config-value-load-project-on-startup"@,
            UiText::ConfigValueSaveProjectBeforeExport => "config-value-save-project-before-export"@,
            UiText::ConfigValueMissingExportTarget => "config-value-missing-export-target"@,
            UiText::SummaryNoneEnabled => "summary-none-enabled"@,
            UiText::SummaryOneEnabledNamed => "summary-one-enabled-named"@,
            UiText::SummaryManyEnabledNamed => "summary-many-enabled-named"@,
            UiText::SummaryManyEnabledCount => "summary-many-enabled-count"@,
            UiText::OutputsNoneEnabled => "outputs-none-enabled"@,
            UiText::OutputsOnePath => "outputs-one-path"@,
            UiText::OutputsManyPaths => "outputs-many-paths"@,
            UiText::ExportStatusNoneEnabled => "export-status-none-enabled"@,
            UiText::ExportStatusOneEnabled => "export-status-one-enabled"@,
            UiText::ExportStatusNamed => "export-status-named"@,
            UiText::ExportStatusCount => "export-status-count"@,
            UiText::StatusBarExports => "status-bar-exports"@,
            UiText::FocusTokens => "focus-tokens"@,
            UiText::FocusParams => "focus-params"@,
            UiText::FocusInspector => "focus-inspector"@,
            UiText::LocaleEnglish => "locale-english"@,
            UiText::LocaleChineseSimplified => "locale-chinese-simplified"@,
            UiText::SurfaceMainWindow => "surface-main-window"@,
            UiText::SurfaceInputEditor => "surface-input-editor"@,
            UiText::SurfaceSourcePicker => "surface-source-picker"@,
            UiText::SurfaceConfigDialog => "surface-config-dialog"@,
            UiText::SurfaceShortcutHelp => "surface-shortcut-help"@,
            UiText::PreviewModeCode => "preview-mode-code"@,
            UiText::PreviewModeShell => "preview-mode-shell"@,
            UiText::PreviewModeLazygit => "preview-mode-lazygit"@,
            UiText::PreviewHeaderSemanticSample => "preview-header-semantic-sample"@,
            UiText::PreviewHeaderSwitchModes => "preview-header-switch-modes"@,
            UiText::PreviewHeaderCaptureActive => "preview-header-capture-active"@,
            UiText::PreviewWaitingTitle => "preview-waiting-title"@,
            UiText::PreviewWaitingDetail => "preview-waiting-detail"@,
            UiText::PreviewExitedTitle => "preview-exited-title"@,
            UiText::WindowTitle => "window-title"@,
            UiText::GuiSectionThemeParameters => "gui-section-theme-parameters"@,
            UiText::GuiSectionPalette => "gui-section-palette"@,
            UiText::GuiSectionPreview => "gui-section-preview"@,
            UiText::GuiSectionInspector => "gui-section-inspector"@,
            UiText::GuiSectionEditorPreferences => "gui-section-editor-preferences"@,
            UiText::GuiSectionActions => "gui-section-actions"@,
            UiText::GuiButtonConfig => "gui-button-config"@,
            UiText::GuiButtonSave => "gui-button-save"@,
            UiText::GuiButtonLoad => "gui-button-load"@,
            UiText::GuiButtonExport => "gui-button-export"@,
            UiText::GuiButtonReset => "gui-button-reset"@,
            UiText::GuiSheetTitle => "gui-sheet-title"@,
            UiText::GuiSheetSubtitle => "gui-sheet-subtitle"@,
            UiText::GuiButtonDone => "gui-button-done"@,
            UiText::GuiSheetSectionProject => "gui-sheet-section-project"@,
            UiText::GuiSheetSectionExportTargets => "gui-sheet-section-export-targets"@,
            UiText::GuiSheetSectionEditorPreferences => "gui-sheet-section-editor-preferences"@,
            UiText::GuiColorPlaceholder => "gui-color-placeholder"@,
            UiText::StatusReady => "status-ready"@,
            UiText::StatusInputCancelled => "status-input-cancelled"@,
            UiText::StatusSourcePickerClosed => "status-source-picker-closed"@,
            UiText::StatusConfigOpened => "status-config-opened"@,
            UiText::StatusConfigClosed => "status-config-closed"@,
            UiText::StatusHelpOpened => "status-help-opened"@,
            UiText::StatusHelpClosed => "status-help-closed"@,
            UiText::StatusSavedProject => "status-saved-project"@,
            UiText::StatusSaveFailed => "status-save-failed"@,
            UiText::StatusLoadedProject => "status-loaded-project"@,
            UiText::StatusLoadRecomputeFailed => "status-load-recompute-failed"@,
            UiText::StatusLoadFailed => "status-load-failed"@,
            UiText::StatusExportNoOutput => "status-export-no-output"@,
            UiText::StatusExportedSingle => "status-exported-single"@,
            UiText::StatusExportedCount => "status-exported-count"@,
            UiText::StatusExportFailed => "status-export-failed"@,
            UiText::StatusEditorConfigSaveFailed => "status-editor-config-save-failed"@,
            UiText::StatusFocusedSurface => "status-focused-surface"@,
            UiText::StatusSurfaceNavigationActive => "status-surface-navigation-active"@,
            UiText::StatusPreviewModeChanged => "status-preview-mode-changed"@,
            UiText::StatusPreviewCaptureActive => "status-preview-capture-active"@,
            UiText::StatusPreviewCaptureReleased => "status-preview-capture-released"@,
            UiText::StatusPreviewProcessExited => "status-preview-process-exited"@,
            UiText::StatusSwitchedTab => "status-switched-tab"@,
            UiText::StatusFocusedPanel => "status-focused-panel"@,
            UiText::StatusTabOnlyHasPanels => "status-tab-only-has-panels"@,
            UiText::StatusSelectedToken => "status-selected-token"@,
            UiText::StatusSelectedParam => "status-selected-param"@,
            UiText::StatusPanelNoListSelection => "status-panel-no-list-selection"@,
            UiText::StatusPanelNoEditableFields => "status-panel-no-editable-fields"@,
            UiText::StatusSelectedField => "status-selected-field"@,
            UiText::StatusControlNoActivation => "status-control-no-activation"@,
            UiText::StatusFailedToUpdateField => "status-failed-to-update-field"@,
            UiText::StatusUpdatedFieldValue => "status-updated-field-value"@,
            UiText::StatusUpdatedEntity => "status-updated-entity"@,
            UiText::StatusRuleChangeRejected => "status-rule-change-rejected"@,
            UiText::StatusEditingNumeric => "status-editing-numeric"@,
            UiText::StatusEditingText => "status-editing-text"@,
            UiText::StatusSelectingSource => "status-selecting-source"@,
            UiText::StatusInvalidCharacter => "status-invalid-character"@,
            UiText::ErrorControlNoTextInput => "error-control-no-text-input"@,
            UiText::ErrorNoSourcesMatch => "error-no-sources-match"@,
            UiText::StatusSourceApplied => "status-source-applied"@,
            UiText::StatusSourceChangeRejected => "status-source-change-rejected"@,
            UiText::StatusBlendUpdated => "status-blend-updated"@,
            UiText::StatusAmountUpdated => "status-amount-updated"@,
            UiText::StatusFixedColorUpdated => "status-fixed-color-updated"@,
            UiText::StatusResetDefaults => "status-reset-defaults"@,
            UiText::StatusResetFailed => "status-reset-failed"@,
            UiText::ErrorProjectNameEmpty => "error-project-name-empty"@,
            UiText::StatusProjectNameUpdated => "status-project-name-updated"@,
            UiText::StatusExportTargetEnabled => "status-export-target-enabled"@,
            UiText::StatusExportTargetDisabled => "status-export-target-disabled"@,
            UiText::StatusMissingExportTarget => "status-missing-export-target"@,
            UiText::StatusExportOutputUpdated => "status-export-output-updated"@,
            UiText::StatusExportTemplateUpdated => "status-export-template-updated"@,
            UiText::ErrorExportNoTemplatePath => "error-export-no-template-path"@,
            UiText::StatusProjectFilePathUpdated => "status-project-file-path-updated"@,
            UiText::StatusAutoLoadEnabled => "status-auto-load-enabled"@,
            UiText::StatusAutoLoadDisabled => "status-auto-load-disabled"@,
            UiText::StatusAutoSaveEnabled => "status-auto-save-enabled"@,
            UiText::StatusAutoSaveDisabled => "status-auto-save-disabled"@,
            UiText::StatusStartupFocusUpdated => "status-startup-focus-updated"@,
            UiText::StatusKeymapUpdated => "status-keymap-updated"@,
            UiText::StatusLanguageUpdated => "status-language-updated"@,
            UiText::ErrorInputEmpty => "error-input-empty"@,
            UiText::ErrorUseToggleChoicePreference => "error-use-toggle-choice-preference"@,
            UiText::ErrorToggleExportTarget => "error-toggle-export-target"@,
            UiText::ErrorInvalidHexColor => "error-invalid-hex-color"@,
            UiText::ErrorInvalidNumber => "error-invalid-number"@,
            UiText::StatusAutoLoadRecomputeFailed => "status-auto-load-recompute-failed"@,
            UiText::StatusAutoLoadedProject => "status-auto-loaded-project"@,
            UiText::StatusAutoLoadFailed => "status-auto-load-failed"@,
            UiText::StatusEditorConfigLoadFailed => "status-editor-config-load-failed"@,
            UiText::FieldProjectNameLower => "field-project-name-lower"@,
            UiText::FieldExportTarget => "field-export-target"@,
            UiText::FieldExportOutputPath => "field-export-output-path"@,
            UiText::FieldExportTemplatePath => "field-export-template-path"@,
            UiText::FieldProjectFilePath => "field-project-file-path"@,
            UiText::FieldAutoLoadProject => "field-auto-load-project"@,
            UiText::FieldAutoSaveProject => "field-auto-save-project"@,
            UiText::FieldStartupFocusLower => "field-startup-focus-lower"@,
            UiText::FieldKeymapPresetLower => "field-keymap-preset-lower"@,
            UiText::FieldLanguageLower => "field-language-lower"@,
            UiText::FooterFilterSources => "footer-filter-sources"@,
            UiText::FooterNumericEditorOpen => "footer-numeric-editor-open"@,
            UiText::FooterFixedColorInput => "footer-fixed-color-input"@,
            UiText::FooterTextInput => "footer-text-input"@,
            UiText::FooterGenericInput => "footer-generic-input"@,
            UiText::FooterReferenceQuick => "footer-reference-quick"@,
            UiText::FooterFixedColorQuick => "footer-fixed-color-quick"@,
            UiText::FooterMixQuick => "footer-mix-quick"@,
            UiText::FooterAdjustQuick => "footer-adjust-quick"@,
            UiText::FooterRuleKindQuick => "footer-rule-kind-quick"@,
            UiText::FooterAdjustOpQuick => "footer-adjust-op-quick"@,
            UiText::FooterParamQuick => "footer-param-quick"@,
            UiText::FooterDefaultQuick => "footer-default-quick"@,
        }
    }

    /// The Fluent message identifier of `self`.
    pub fn key(self) -> (r: &'static str)
        ensures
            r@ == self.spec_key(),
    {
        match self {
            UiText::MenuTitle => "menu-title",
            UiText::MenuTabs => "menu-tabs",
            UiText::MenuPanels => "menu-panels",
            UiText::MenuEdit => "menu-edit",
            UiText::MenuHelp => "menu-help",
            UiText::MenuConfig => "menu-config",
            UiText::TabTheme => "tab-theme",
            UiText::TabProject => "tab-project",
            UiText::PanelTokenList => "panel-token-list",
            UiText::PanelThemeParams => "panel-theme-params",
            UiText::PanelPreviewSampleCode => "panel-preview-sample-code",
            UiText::PanelPalette => "panel-palette",
            UiText::PanelResolvedTokens => "panel-resolved-tokens",
            UiText::PanelResolvedTokensSecondary => "panel-resolved-tokens-secondary",
            UiText::PanelInspector => "panel-inspector",
            UiText::PanelInteractionInspector => "panel-interaction-inspector",
            UiText::PanelProjectConfig => "panel-project-config",
            UiText::PanelExportTargets => "panel-export-targets",
            UiText::PanelEditorPreferences => "panel-editor-preferences",
            UiText::FieldProject => "field-project",
            UiText::FieldExports => "field-exports",
            UiText::FieldOutputs => "field-outputs",
            UiText::InspectorToken => "inspector-token",
            UiText::InspectorColor => "inspector-color",
            UiText::InspectorSummary => "inspector-summary",
            UiText::InspectorRuleType => "inspector-rule-type",
            UiText::InspectorSource => "inspector-source",
            UiText::InspectorColorA => "inspector-color-a",
            UiText::InspectorColorB => "inspector-color-b",
            UiText::InspectorBlend => "inspector-blend",
            UiText::InspectorOperation => "inspector-operation",
            UiText::InspectorAmount => "inspector-amount",
            UiText::InspectorHex => "inspector-hex",
            UiText::ProjectConfigFooter => "project-config-footer",
            UiText::ExportTargetsFooter => "export-targets-footer",
            UiText::EditorPreferencesFooter => "editor-preferences-footer",
            UiText::ConfigTitle => "config-title",
            UiText::ConfigSectionProjectSaved => "config-section-project-saved",
            UiText::ConfigSectionExportSaved => "config-section-export-saved",
            UiText::ConfigSectionEditorLocal => "config-section-editor-local",
            UiText::ConfigFooterEditHint => "config-footer-edit-hint",
            UiText::ConfigFooterProjectSaved => "config-footer-project-saved",
            UiText::ConfigFooterEditorLocal => "config-footer-editor-local",
            UiText::ConfigFooterCloseHint => "config-footer-close-hint",
            UiText::HelpTitle => "help-title",
            UiText::HelpFooterScroll => "help-footer-scroll",
            UiText::HelpFooterKeymap => "help-footer-keymap",
            UiText::NumericEditorTitle => "numeric-editor-title",
            UiText::NumericFooter => "numeric-footer",
            UiText::SourcePickerTitle => "source-picker-title",
            UiText::HelpSectionGlobal => "help-section-global",
            UiText::HelpSectionWorkspace => "help-section-workspace",
            UiText::HelpSectionPreview => "help-section-preview",
            UiText::HelpSectionPickerInput => "help-section-picker-input",
            UiText::HelpShortcutHelpLabel => "help-shortcut-help-label",
            UiText::HelpShortcutHelpDesc => "help-shortcut-help-desc",
            UiText::HelpConfigLabel => "help-config-label",
            UiText::HelpConfigDesc => "help-config-desc",
            UiText::HelpSaveProjectLabel => "help-save-project-label",
            UiText::HelpSaveProjectDesc => "help-save-project-desc",
            UiText::HelpLoadProjectLabel => "help-load-project-label",
            UiText::HelpLoadProjectDesc => "help-load-project-desc",
            UiText::HelpExportLabel => "help-export-label",
            UiText::HelpExportDesc => "help-export-desc",
            UiText::HelpResetLabel => "help-reset-label",
            UiText::HelpResetDesc => "help-reset-desc",
            UiText::HelpQuitLabel => "help-quit-label",
            UiText::HelpQuitDesc => "help-quit-desc",
            UiText::HelpSwitchTabsLabel => "help-switch-tabs-label",
            UiText::HelpSwitchTabsDesc => "help-switch-tabs-desc",
            UiText::HelpFocusPanelLabel => "help-focus-panel-label",
            UiText::HelpFocusPanelDesc => "help-focus-panel-desc",
            UiText::HelpCyclePanelsLabel => "help-cycle-panels-label",
            UiText::HelpCyclePanelsDesc => "help-cycle-panels-desc",
            UiText::HelpMoveSelectionLabel => "help-move-selection-label",
            UiText::HelpMoveSelectionDesc => "help-move-selection-desc",
            UiText::HelpAdjustValueLabel => "help-adjust-value-label",
            UiText::HelpAdjustValueDesc => "help-adjust-value-desc",
            UiText::HelpActivateLabel => "help-activate-label",
            UiText::HelpActivateDesc => "help-activate-desc",
            UiText::HelpPreviewModeLabel => "help-preview-mode-label",
            UiText::HelpPreviewModeDesc => "help-preview-mode-desc",
            UiText::HelpPreviewCaptureLabel => "help-preview-capture-label",
            UiText::HelpPreviewCaptureDesc => "help-preview-capture-desc",
            UiText::HelpPreviewReleaseLabel => "help-preview-release-label",
            UiText::HelpPreviewReleaseDesc => "help-preview-release-desc",
            UiText::HelpTypeFilterLabel => "help-type-filter-label",
            UiText::HelpTypeFilterDesc => "help-type-filter-desc",
            UiText::HelpDeleteBackwardLabel => "help-delete-backward-label",
            UiText::HelpDeleteBackwardDesc => "help-delete-backward-desc",
            UiText::HelpClearLabel => "help-clear-label",
            UiText::HelpClearDesc => "help-clear-desc",
            UiText::HelpNudgeNumericLabel => "help-nudge-numeric-label",
            UiText::HelpNudgeNumericDesc => "help-nudge-numeric-desc",
            UiText::HelpApplyLabel => "help-apply-label",
            UiText::HelpApplyDesc => "help-apply-desc",
            UiText::HelpCancelLabel => "help-cancel-label",
            UiText::HelpCancelDesc => "help-cancel-desc",
            UiText::KeymapPresetTitle => "keymap-preset-title",
            UiText::KeymapStandardLabel => "keymap-standard-label",
            UiText::KeymapStandardDesc => "keymap-standard-desc",
            UiText::KeymapVimLabel => "keymap-vim-label",
            UiText::KeymapVimDesc => "keymap-vim-desc",
            UiText::ConfigLabelProjectName => "config-label-project-name",
            UiText::ConfigLabelTarget => "config-label-target",
            UiText::ConfigLabelOutput => "config-label-output",
            UiText::ConfigLabelTemplate => "config-label-template",
            UiText::ConfigLabelProjectFile => "config-label-project-file",
            UiText::ConfigLabelAutoLoad => "config-label-auto-load",
            UiText::ConfigLabelAutoSave => "config-label-auto-save",
            UiText::ConfigLabelStartupFocus => "config-label-startup-focus",
            UiText::ConfigLabelKeymap => "config-label-keymap",
            UiText::ConfigLabelLanguage => "config-label-language",
            UiText::ConfigValueLoadProjectOnStartup => "config-value-load-project-on-startup",
            UiText::ConfigValueSaveProjectBeforeExport => "config-value-save-project-before-export",
            UiText::ConfigValueMissingExportTarget => "config-value-missing-export-target",
            UiText::SummaryNoneEnabled => "summary-none-enabled",
            UiText::SummaryOneEnabledNamed => "summary-one-enabled-named",
            UiText::SummaryManyEnabledNamed => "summary-many-enabled-named",
            UiText::SummaryManyEnabledCount => "summary-many-enabled-count",
            UiText::OutputsNoneEnabled => "outputs-none-enabled",
            UiText::OutputsOnePath => "outputs-one-path",
            UiText::OutputsManyPaths => "outputs-many-paths",
            UiText::ExportStatusNoneEnabled => "export-status-none-enabled",
            UiText::ExportStatusOneEnabled => "export-status-one-enabled",
            UiText::ExportStatusNamed => "export-status-named",
            UiText::ExportStatusCount => "export-status-count",
            UiText::StatusBarExports => "status-bar-exports",
            UiText::FocusTokens => "focus-tokens",
            UiText::FocusParams => "focus-params",
            UiText::FocusInspector => "focus-inspector",
            UiText::LocaleEnglish => "locale-english",
            UiText::LocaleChineseSimplified => "locale-chinese-simplified",
            UiText::SurfaceMainWindow => "surface-main-window",
            UiText::SurfaceInputEditor => "surface-input-editor",
            UiText::SurfaceSourcePicker => "surface-source-picker",
            UiText::SurfaceConfigDialog => "surface-config-dialog",
            UiText::SurfaceShortcutHelp => "surface-shortcut-help",
            UiText::PreviewModeCode => "preview-mode-code",
            UiText::PreviewModeShell => "preview-mode-shell",
            UiText::PreviewModeLazygit => "preview-mode-lazygit",
            UiText::PreviewHeaderSemanticSample => "preview-header-semantic-sample",
            UiText::PreviewHeaderSwitchModes => "preview-header-switch-modes",
            UiText::PreviewHeaderCaptureActive => "preview-header-capture-active",
            UiText::PreviewWaitingTitle => "preview-waiting-title",
            UiText::PreviewWaitingDetail => "preview-waiting-detail",
            UiText::PreviewExitedTitle => "preview-exited-title",
            UiText::WindowTitle => "window-title",
            UiText::GuiSectionThemeParameters => "gui-section-theme-parameters",
            UiText::GuiSectionPalette => "gui-section-palette",
            UiText::GuiSectionPreview => "gui-section-preview",
            UiText::GuiSectionInspector => "gui-section-inspector",
            UiText::GuiSectionEditorPreferences => "gui-section-editor-preferences",
            UiText::GuiSectionActions => "gui-section-actions",
            UiText::GuiButtonConfig => "gui-button-config",
            UiText::GuiButtonSave => "gui-button-save",
            UiText::GuiButtonLoad => "gui-button-load",
            UiText::GuiButtonExport => "gui-button-export",
            UiText::GuiButtonReset => "gui-button-reset",
            UiText::GuiSheetTitle => "gui-sheet-title",
            UiText::GuiSheetSubtitle => "gui-sheet-subtitle",
            UiText::GuiButtonDone => "gui-button-done",
            UiText::GuiSheetSectionProject => "gui-sheet-section-project",
            UiText::GuiSheetSectionExportTargets => "gui-sheet-section-export-targets",
            UiText::GuiSheetSectionEditorPreferences => "gui-sheet-section-editor-preferences",
            UiText::GuiColorPlaceholder => "gui-color-placeholder",
            UiText::StatusReady => "status-ready",
            UiText::StatusInputCancelled => "status-input-cancelled",
            UiText::StatusSourcePickerClosed => "status-source-picker-closed",
            UiText::StatusConfigOpened => "status-config-opened",
            UiText::StatusConfigClosed => "status-config-closed",
            UiText::StatusHelpOpened => "status-help-opened",
            UiText::StatusHelpClosed => "status-help-closed",
            UiText::StatusSavedProject => "status-saved-project",
            UiText::StatusSaveFailed => "status-save-failed",
            UiText::StatusLoadedProject => "status-loaded-project",
            UiText::StatusLoadRecomputeFailed => "status-load-recompute-failed",
            UiText::StatusLoadFailed => "status-load-failed",
            UiText::StatusExportNoOutput => "status-export-no-output",
            UiText::StatusExportedSingle => "status-exported-single",
            UiText::StatusExportedCount => "status-exported-count",
            UiText::StatusExportFailed => "status-export-failed",
            UiText::StatusEditorConfigSaveFailed => "status-editor-config-save-failed",
            UiText::StatusFocusedSurface => "status-focused-surface",
            UiText::StatusSurfaceNavigationActive => "status-surface-navigation-active",
            UiText::StatusPreviewModeChanged => "status-preview-mode-changed",
            UiText::StatusPreviewCaptureActive => "status-preview-capture-active",
            UiText::StatusPreviewCaptureReleased => "status-preview-capture-released",
            UiText::StatusPreviewProcessExited => "status-preview-process-exited",
            UiText::StatusSwitchedTab => "status-switched-tab",
            UiText::StatusFocusedPanel => "status-focused-panel",
            UiText::StatusTabOnlyHasPanels => "status-tab-only-has-panels",
            UiText::StatusSelectedToken => "status-selected-token",
            UiText::StatusSelectedParam => "status-selected-param",
            UiText::StatusPanelNoListSelection => "status-panel-no-list-selection",
            UiText::StatusPanelNoEditableFields => "status-panel-no-editable-fields",
            UiText::StatusSelectedField => "status-selected-field",
            UiText::StatusControlNoActivation => "status-control-no-activation",
            UiText::StatusFailedToUpdateField => "status-failed-to-update-field",
            UiText::StatusUpdatedFieldValue => "status-updated-field-value",
            UiText::StatusUpdatedEntity => "status-updated-entity",
            UiText::StatusRuleChangeRejected => "status-rule-change-rejected",
            UiText::StatusEditingNumeric => "status-editing-numeric",
            UiText::StatusEditingText => "status-editing-text",
            UiText::StatusSelectingSource => "status-selecting-source",
            UiText::StatusInvalidCharacter => "status-invalid-character",
            UiText::ErrorControlNoTextInput => "error-control-no-text-input",
            UiText::ErrorNoSourcesMatch => "error-no-sources-match",
            UiText::StatusSourceApplied => "status-source-applied",
            UiText::StatusSourceChangeRejected => "status-source-change-rejected",
            UiText::StatusBlendUpdated => "status-blend-updated",
            UiText::StatusAmountUpdated => "status-amount-updated",
            UiText::StatusFixedColorUpdated => "status-fixed-color-updated",
            UiText::StatusResetDefaults => "status-reset-defaults",
            UiText::StatusResetFailed => "status-reset-failed",
            UiText::ErrorProjectNameEmpty => "error-project-name-empty",
            UiText::StatusProjectNameUpdated => "status-project-name-updated",
            UiText::StatusExportTargetEnabled => "status-export-target-enabled",
            UiText::StatusExportTargetDisabled => "status-export-target-disabled",
            UiText::StatusMissingExportTarget => "status-missing-export-target",
            UiText::StatusExportOutputUpdated => "status-export-output-updated",
            UiText::StatusExportTemplateUpdated => "status-export-template-updated",
            UiText::ErrorExportNoTemplatePath => "error-export-no-template-path",
            UiText::StatusProjectFilePathUpdated => "status-project-file-path-updated",
            UiText::StatusAutoLoadEnabled => "status-auto-load-enabled",
            UiText::StatusAutoLoadDisabled => "status-auto-load-disabled",
            UiText::StatusAutoSaveEnabled => "status-auto-save-enabled",
            UiText::StatusAutoSaveDisabled => "status-auto-save-disabled",
            UiText::StatusStartupFocusUpdated => "status-startup-focus-updated",
            UiText::StatusKeymapUpdated => "status-keymap-updated",
            UiText::StatusLanguageUpdated => "status-language-updated",
            UiText::ErrorInputEmpty => "error-input-empty",
            UiText::ErrorUseToggleChoicePreference => "error-use-toggle-choice-preference",
            UiText::ErrorToggleExportTarget => "error-toggle-export-target",
            UiText::ErrorInvalidHexColor => "error-invalid-hex-color",
            UiText::ErrorInvalidNumber => "error-invalid-number",
            UiText::StatusAutoLoadRecomputeFailed => "status-auto-load-recompute-failed",
            UiText::StatusAutoLoadedProject => "status-auto-loaded-project",
            UiText::StatusAutoLoadFailed => "status-auto-load-failed",
            UiText::StatusEditorConfigLoadFailed => "status-editor-config-load-failed",
            UiText::FieldProjectNameLower => "field-project-name-lower",
            UiText::FieldExportTarget => "field-export-target",
            UiText::FieldExportOutputPath => "field-export-output-path",
            UiText::FieldExportTemplatePath => "field-export-template-path",
            UiText::FieldProjectFilePath => "field-project-file-path",
            UiText::FieldAutoLoadProject => "field-auto-load-project",
            UiText::FieldAutoSaveProject => "field-auto-save-project",
            UiText::FieldStartupFocusLower => "field-startup-focus-lower",
            UiText::FieldKeymapPresetLower => "field-keymap-preset-lower",
            UiText::FieldLanguageLower => "field-language-lower",
            UiText::FooterFilterSources => "footer-filter-sources",
            UiText::FooterNumericEditorOpen => "footer-numeric-editor-open",
            UiText::FooterFixedColorInput => "footer-fixed-color-input",
            UiText::FooterTextInput => "footer-text-input",
            UiText::FooterGenericInput => "footer-generic-input",
            UiText::FooterReferenceQuick => "footer-reference-quick",
            UiText::FooterFixedColorQuick => "footer-fixed-color-quick",
            UiText::FooterMixQuick => "footer-mix-quick",
            UiText::FooterAdjustQuick => "footer-adjust-quick",
            UiText::FooterRuleKindQuick => "footer-rule-kind-quick",
            UiText::FooterAdjustOpQuick => "footer-adjust-op-quick",
            UiText::FooterParamQuick => "footer-param-quick",
            UiText::FooterDefaultQuick => "footer-default-quick",
        }
    }

    /// Every message, in declaration order.
    pub open spec fn all_texts() -> Seq<UiText> {
        seq![
            UiText::MenuTitle,
            UiText::MenuTabs,
            UiText::MenuPanels,
            UiText::MenuEdit,
            UiText::MenuHelp,
            UiText::MenuConfig,
            UiText::TabTheme,
            UiText::TabProject,
            UiText::PanelTokenList,
            UiText::PanelThemeParams,
            UiText::PanelPreviewSampleCode,
            UiText::PanelPalette,
            UiText::PanelResolvedTokens,
            UiText::PanelResolvedTokensSecondary,
            UiText::PanelInspector,
            UiText::PanelInteractionInspector,
            UiText::PanelProjectConfig,
            UiText::PanelExportTargets,
            UiText::PanelEditorPreferences,
            UiText::FieldProject,
            UiText::FieldExports,
            UiText::FieldOutputs,
            UiText::InspectorToken,
            UiText::InspectorColor,
            UiText::InspectorSummary,
            UiText::InspectorRuleType,
            UiText::InspectorSource,
            UiText::InspectorColorA,
            UiText::InspectorColorB,
            UiText::InspectorBlend,
            UiText::InspectorOperation,
            UiText::InspectorAmount,
            UiText::InspectorHex,
            UiText::ProjectConfigFooter,
            UiText::ExportTargetsFooter,
            UiText::EditorPreferencesFooter,
            UiText::ConfigTitle,
            UiText::ConfigSectionProjectSaved,
            UiText::ConfigSectionExportSaved,
            UiText::ConfigSectionEditorLocal,
            UiText::ConfigFooterEditHint,
            UiText::ConfigFooterProjectSaved,
            UiText::ConfigFooterEditorLocal,
            UiText::ConfigFooterCloseHint,
            UiText::HelpTitle,
            UiText::HelpFooterScroll,
            UiText::HelpFooterKeymap,
            UiText::NumericEditorTitle,
            UiText::NumericFooter,
            UiText::SourcePickerTitle,
            UiText::HelpSectionGlobal,
            UiText::HelpSectionWorkspace,
            UiText::HelpSectionPreview,
            UiText::HelpSectionPickerInput,
            UiText::HelpShortcutHelpLabel,
            UiText::HelpShortcutHelpDesc,
            UiText::HelpConfigLabel,
            UiText::HelpConfigDesc,
            UiText::HelpSaveProjectLabel,
            UiText::HelpSaveProjectDesc,
            UiText::HelpLoadProjectLabel,
            UiText::HelpLoadProjectDesc,
            UiText::HelpExportLabel,
            UiText::HelpExportDesc,
            UiText::HelpResetLabel,
            UiText::HelpResetDesc,
            UiText::HelpQuitLabel,
            UiText::HelpQuitDesc,
            UiText::HelpSwitchTabsLabel,
            UiText::HelpSwitchTabsDesc,
            UiText::HelpFocusPanelLabel,
            UiText::HelpFocusPanelDesc,
            UiText::HelpCyclePanelsLabel,
            UiText::HelpCyclePanelsDesc,
            UiText::HelpMoveSelectionLabel,
            UiText::HelpMoveSelectionDesc,
            UiText::HelpAdjustValueLabel,
            UiText::HelpAdjustValueDesc,
            UiText::HelpActivateLabel,
            UiText::HelpActivateDesc,
            UiText::HelpPreviewModeLabel,
            UiText::HelpPreviewModeDesc,
            UiText::HelpPreviewCaptureLabel,
            UiText::HelpPreviewCaptureDesc,
            UiText::HelpPreviewReleaseLabel,
            UiText::HelpPreviewReleaseDesc,
            UiText::HelpTypeFilterLabel,
            UiText::HelpTypeFilterDesc,
            UiText::HelpDeleteBackwardLabel,
            UiText::HelpDeleteBackwardDesc,
            UiText::HelpClearLabel,
            UiText::HelpClearDesc,
            UiText::HelpNudgeNumericLabel,
            UiText::HelpNudgeNumericDesc,
            UiText::HelpApplyLabel,
            UiText::HelpApplyDesc,
            UiText::HelpCancelLabel,
            UiText::HelpCancelDesc,
            UiText::KeymapPresetTitle,
            UiText::KeymapStandardLabel,
            UiText::KeymapStandardDesc,
            UiText::KeymapVimLabel,
            UiText::KeymapVimDesc,
            UiText::ConfigLabelProjectName,
            UiText::ConfigLabelTarget,
            UiText::ConfigLabelOutput,
            UiText::ConfigLabelTemplate,
            UiText::ConfigLabelProjectFile,
            UiText::ConfigLabelAutoLoad,
            UiText::ConfigLabelAutoSave,
            UiText::ConfigLabelStartupFocus,
            UiText::ConfigLabelKeymap,
            UiText::ConfigLabelLanguage,
            UiText::ConfigValueLoadProjectOnStartup,
            UiText::ConfigValueSaveProjectBeforeExport,
            UiText::ConfigValueMissingExportTarget,
            UiText::SummaryNoneEnabled,
            UiText::SummaryOneEnabledNamed,
            UiText::SummaryManyEnabledNamed,
            UiText::SummaryManyEnabledCount,
            UiText::OutputsNoneEnabled,
            UiText::OutputsOnePath,
            UiText::OutputsManyPaths,
            UiText::ExportStatusNoneEnabled,
            UiText::ExportStatusOneEnabled,
            UiText::ExportStatusNamed,
            UiText::ExportStatusCount,
            UiText::StatusBarExports,
            UiText::FocusTokens,
            UiText::FocusParams,
            UiText::FocusInspector,
            UiText::LocaleEnglish,
            UiText::LocaleChineseSimplified,
            UiText::SurfaceMainWindow,
            UiText::SurfaceInputEditor,
            UiText::SurfaceSourcePicker,
            UiText::SurfaceConfigDialog,
            UiText::SurfaceShortcutHelp,
            UiText::PreviewModeCode,
            UiText::PreviewModeShell,
            UiText::PreviewModeLazygit,
            UiText::PreviewHeaderSemanticSample,
            UiText::PreviewHeaderSwitchModes,
            UiText::PreviewHeaderCaptureActive,
            UiText::PreviewWaitingTitle,
            UiText::PreviewWaitingDetail,
            UiText::PreviewExitedTitle,
            UiText::WindowTitle,
            UiText::GuiSectionThemeParameters,
            UiText::GuiSectionPalette,
            UiText::GuiSectionPreview,
            UiText::GuiSectionInspector,
            UiText::GuiSectionEditorPreferences,
            UiText::GuiSectionActions,
            UiText::GuiButtonConfig,
            UiText::GuiButtonSave,
            UiText::GuiButtonLoad,
            UiText::GuiButtonExport,
            UiText::GuiButtonReset,
            UiText::GuiSheetTitle,
            UiText::GuiSheetSubtitle,
            UiText::GuiButtonDone,
            UiText::GuiSheetSectionProject,
            UiText::GuiSheetSectionExportTargets,
            UiText::GuiSheetSectionEditorPreferences,
            UiText::GuiColorPlaceholder,
            UiText::StatusReady,
            UiText::StatusInputCancelled,
            UiText::StatusSourcePickerClosed,
            UiText::StatusConfigOpened,
            UiText::StatusConfigClosed,
            UiText::StatusHelpOpened,
            UiText::StatusHelpClosed,
            UiText::StatusSavedProject,
            UiText::StatusSaveFailed,
            UiText::StatusLoadedProject,
            UiText::StatusLoadRecomputeFailed,
            UiText::StatusLoadFailed,
            UiText::StatusExportNoOutput,
            UiText::StatusExportedSingle,
            UiText::StatusExportedCount,
            UiText::StatusExportFailed,
            UiText::StatusEditorConfigSaveFailed,
            UiText::StatusFocusedSurface,
            UiText::StatusSurfaceNavigationActive,
            UiText::StatusPreviewModeChanged,
            UiText::StatusPreviewCaptureActive,
            UiText::StatusPreviewCaptureReleased,
            UiText::StatusPreviewProcessExited,
            UiText::StatusSwitchedTab,
            UiText::StatusFocusedPanel,
            UiText::StatusTabOnlyHasPanels,
            UiText::StatusSelectedToken,
            UiText::StatusSelectedParam,
            UiText::StatusPanelNoListSelection,
            UiText::StatusPanelNoEditableFields,
            UiText::StatusSelectedField,
            UiText::StatusControlNoActivation,
            UiText::StatusFailedToUpdateField,
            UiText::StatusUpdatedFieldValue,
            UiText::StatusUpdatedEntity,
            UiText::StatusRuleChangeRejected,
            UiText::StatusEditingNumeric,
            UiText::StatusEditingText,
            UiText::StatusSelectingSource,
            UiText::StatusInvalidCharacter,
            UiText::ErrorControlNoTextInput,
            UiText::ErrorNoSourcesMatch,
            UiText::StatusSourceApplied,
            UiText::StatusSourceChangeRejected,
            UiText::StatusBlendUpdated,
            UiText::StatusAmountUpdated,
            UiText::StatusFixedColorUpdated,
            UiText::StatusResetDefaults,
            UiText::StatusResetFailed,
            UiText::ErrorProjectNameEmpty,
            UiText::StatusProjectNameUpdated,
            UiText::StatusExportTargetEnabled,
            UiText::StatusExportTargetDisabled,
            UiText::StatusMissingExportTarget,
            UiText::StatusExportOutputUpdated,
            UiText::StatusExportTemplateUpdated,
            UiText::ErrorExportNoTemplatePath,
            UiText::StatusProjectFilePathUpdated,
            UiText::StatusAutoLoadEnabled,
            UiText::StatusAutoLoadDisabled,
            UiText::StatusAutoSaveEnabled,
            UiText::StatusAutoSaveDisabled,
            UiText::StatusStartupFocusUpdated,
            UiText::StatusKeymapUpdated,
            UiText::StatusLanguageUpdated,
            UiText::ErrorInputEmpty,
            UiText::ErrorUseToggleChoicePreference,
            UiText::ErrorToggleExportTarget,
            UiText::ErrorInvalidHexColor,
            UiText::ErrorInvalidNumber,
            UiText::StatusAutoLoadRecomputeFailed,
            UiText::StatusAutoLoadedProject,
            UiText::StatusAutoLoadFailed,
            UiText::StatusEditorConfigLoadFailed,
            UiText::FieldProjectNameLower,
            UiText::FieldExportTarget,
            UiText::FieldExportOutputPath,
            UiText::FieldExportTemplatePath,
            UiText::FieldProjectFilePath,
            UiText::FieldAutoLoadProject,
            UiText::FieldAutoSaveProject,
            UiText::FieldStartupFocusLower,
            UiText::FieldKeymapPresetLower,
            UiText::FieldLanguageLower,
            UiText::FooterFilterSources,
            UiText::FooterNumericEditorOpen,
            UiText::FooterFixedColorInput,
            UiText::FooterTextInput,
            UiText::FooterGenericInput,
            UiText::FooterReferenceQuick,
            UiText::FooterFixedColorQuick,
            UiText::FooterMixQuick,
            UiText::FooterAdjustQuick,
            UiText::FooterRuleKindQuick,
            UiText::FooterAdjustOpQuick,
            UiText::FooterParamQuick,
            UiText::FooterDefaultQuick,
        ]
    }

    /// Every message, in declaration order.
    pub fn all() -> (r: Vec<UiText>)
        ensures
            r@ == Self::all_texts(),
            r.len() == 263,
            forall|t: UiText| r@.contains(t),
    {
        let r = vec![
            UiText::MenuTitle,
            UiText::MenuTabs,
            UiText::MenuPanels,
            UiText::MenuEdit,
            UiText::MenuHelp,
            UiText::MenuConfig,
            UiText::TabTheme,
            UiText::TabProject,
            UiText::PanelTokenList,
            UiText::PanelThemeParams,
            UiText::PanelPreviewSampleCode,
            UiText::PanelPalette,
            UiText::PanelResolvedTokens,
            UiText::PanelResolvedTokensSecondary,
            UiText::PanelInspector,
            UiText::PanelInteractionInspector,
            UiText::PanelProjectConfig,
            UiText::PanelExportTargets,
            UiText::PanelEditorPreferences,
            UiText::FieldProject,
            UiText::FieldExports,
            UiText::FieldOutputs,
            UiText::InspectorToken,
            UiText::InspectorColor,
            UiText::InspectorSummary,
            UiText::InspectorRuleType,
            UiText::InspectorSource,
            UiText::InspectorColorA,
            UiText::InspectorColorB,
            UiText::InspectorBlend,
            UiText::InspectorOperation,
            UiText::InspectorAmount,
            UiText::InspectorHex,
            UiText::ProjectConfigFooter,
            UiText::ExportTargetsFooter,
            UiText::EditorPreferencesFooter,
            UiText::ConfigTitle,
            UiText::ConfigSectionProjectSaved,
            UiText::ConfigSectionExportSaved,
            UiText::ConfigSectionEditorLocal,
            UiText::ConfigFooterEditHint,
            UiText::ConfigFooterProjectSaved,
            UiText::ConfigFooterEditorLocal,
            UiText::ConfigFooterCloseHint,
            UiText::HelpTitle,
            UiText::HelpFooterScroll,
            UiText::HelpFooterKeymap,
            UiText::NumericEditorTitle,
            UiText::NumericFooter,
            UiText::SourcePickerTitle,
            UiText::HelpSectionGlobal,
            UiText::HelpSectionWorkspace,
            UiText::HelpSectionPreview,
            UiText::HelpSectionPickerInput,
            UiText::HelpShortcutHelpLabel,
            UiText::HelpShortcutHelpDesc,
            UiText::HelpConfigLabel,
            UiText::HelpConfigDesc,
            UiText::HelpSaveProjectLabel,
            UiText::HelpSaveProjectDesc,
            UiText::HelpLoadProjectLabel,
            UiText::HelpLoadProjectDesc,
            UiText::HelpExportLabel,
            UiText::HelpExportDesc,
            UiText::HelpResetLabel,
            UiText::HelpResetDesc,
            UiText::HelpQuitLabel,
            UiText::HelpQuitDesc,
            UiText::HelpSwitchTabsLabel,
            UiText::HelpSwitchTabsDesc,
            UiText::HelpFocusPanelLabel,
            UiText::HelpFocusPanelDesc,
            UiText::HelpCyclePanelsLabel,
            UiText::HelpCyclePanelsDesc,
            UiText::HelpMoveSelectionLabel,
            UiText::HelpMoveSelectionDesc,
            UiText::HelpAdjustValueLabel,
            UiText::HelpAdjustValueDesc,
            UiText::HelpActivateLabel,
            UiText::HelpActivateDesc,
            UiText::HelpPreviewModeLabel,
            UiText::HelpPreviewModeDesc,
            UiText::HelpPreviewCaptureLabel,
            UiText::HelpPreviewCaptureDesc,
            UiText::HelpPreviewReleaseLabel,
            UiText::HelpPreviewReleaseDesc,
            UiText::HelpTypeFilterLabel,
            UiText::HelpTypeFilterDesc,
            UiText::HelpDeleteBackwardLabel,
            UiText::HelpDeleteBackwardDesc,
            UiText::HelpClearLabel,
            UiText::HelpClearDesc,
            UiText::HelpNudgeNumericLabel,
            UiText::HelpNudgeNumericDesc,
            UiText::HelpApplyLabel,
            UiText::HelpApplyDesc,
            UiText::HelpCancelLabel,
            UiText::HelpCancelDesc,
            UiText::KeymapPresetTitle,
            UiText::KeymapStandardLabel,
            UiText::KeymapStandardDesc,
            UiText::KeymapVimLabel,
            UiText::KeymapVimDesc,
            UiText::ConfigLabelProjectName,
            UiText::ConfigLabelTarget,
            UiText::ConfigLabelOutput,
            UiText::ConfigLabelTemplate,
            UiText::ConfigLabelProjectFile,
            UiText::ConfigLabelAutoLoad,
            UiText::ConfigLabelAutoSave,
            UiText::ConfigLabelStartupFocus,
            UiText::ConfigLabelKeymap,
            UiText::ConfigLabelLanguage,
            UiText::ConfigValueLoadProjectOnStartup,
            UiText::ConfigValueSaveProjectBeforeExport,
            UiText::ConfigValueMissingExportTarget,
            UiText::SummaryNoneEnabled,
            UiText::SummaryOneEnabledNamed,
            UiText::SummaryManyEnabledNamed,
            UiText::SummaryManyEnabledCount,
            UiText::OutputsNoneEnabled,
            UiText::OutputsOnePath,
            UiText::OutputsManyPaths,
            UiText::ExportStatusNoneEnabled,
            UiText::ExportStatusOneEnabled,
            UiText::ExportStatusNamed,
            UiText::ExportStatusCount,
            UiText::StatusBarExports,
            UiText::FocusTokens,
            UiText::FocusParams,
            UiText::FocusInspector,
            UiText::LocaleEnglish,
            UiText::LocaleChineseSimplified,
            UiText::SurfaceMainWindow,
            UiText::SurfaceInputEditor,
            UiText::SurfaceSourcePicker,
            UiText::SurfaceConfigDialog,
            UiText::SurfaceShortcutHelp,
            UiText::PreviewModeCode,
            UiText::PreviewModeShell,
            UiText::PreviewModeLazygit,
            UiText::PreviewHeaderSemanticSample,
            UiText::PreviewHeaderSwitchModes,
            UiText::PreviewHeaderCaptureActive,
            UiText::PreviewWaitingTitle,
            UiText::PreviewWaitingDetail,
            UiText::PreviewExitedTitle,
            UiText::WindowTitle,
            UiText::GuiSectionThemeParameters,
            UiText::GuiSectionPalette,
            UiText::GuiSectionPreview,
            UiText::GuiSectionInspector,
            UiText::GuiSectionEditorPreferences,
            UiText::GuiSectionActions,
            UiText::GuiButtonConfig,
            UiText::GuiButtonSave,
            UiText::GuiButtonLoad,
            UiText::GuiButtonExport,
            UiText::GuiButtonReset,
            UiText::GuiSheetTitle,
            UiText::GuiSheetSubtitle,
            UiText::GuiButtonDone,
            UiText::GuiSheetSectionProject,
            UiText::GuiSheetSectionExportTargets,
            UiText::GuiSheetSectionEditorPreferences,
            UiText::GuiColorPlaceholder,
            UiText::StatusReady,
            UiText::StatusInputCancelled,
            UiText::StatusSourcePickerClosed,
            UiText::StatusConfigOpened,
            UiText::StatusConfigClosed,
            UiText::StatusHelpOpened,
            UiText::StatusHelpClosed,
            UiText::StatusSavedProject,
            UiText::StatusSaveFailed,
            UiText::StatusLoadedProject,
            UiText::StatusLoadRecomputeFailed,
            UiText::StatusLoadFailed,
            UiText::StatusExportNoOutput,
            UiText::StatusExportedSingle,
            UiText::StatusExportedCount,
            UiText::StatusExportFailed,
            UiText::StatusEditorConfigSaveFailed,
            UiText::StatusFocusedSurface,
            UiText::StatusSurfaceNavigationActive,
            UiText::StatusPreviewModeChanged,
            UiText::StatusPreviewCaptureActive,
            UiText::StatusPreviewCaptureReleased,
            UiText::StatusPreviewProcessExited,
            UiText::StatusSwitchedTab,
            UiText::StatusFocusedPanel,
            UiText::StatusTabOnlyHasPanels,
            UiText::StatusSelectedToken,
            UiText::StatusSelectedParam,
            UiText::StatusPanelNoListSelection,
            UiText::StatusPanelNoEditableFields,
            UiText::StatusSelectedField,
            UiText::StatusControlNoActivation,
            UiText::StatusFailedToUpdateField,
            UiText::StatusUpdatedFieldValue,
            UiText::StatusUpdatedEntity,
            UiText::StatusRuleChangeRejected,
            UiText::StatusEditingNumeric,
            UiText::StatusEditingText,
            UiText::StatusSelectingSource,
            UiText::StatusInvalidCharacter,
            UiText::ErrorControlNoTextInput,
            UiText::ErrorNoSourcesMatch,
            UiText::StatusSourceApplied,
            UiText::StatusSourceChangeRejected,
            UiText::StatusBlendUpdated,
            UiText::StatusAmountUpdated,
            UiText::StatusFixedColorUpdated,
            UiText::StatusResetDefaults,
            UiText::StatusResetFailed,
            UiText::ErrorProjectNameEmpty,
            UiText::StatusProjectNameUpdated,
            UiText::StatusExportTargetEnabled,
            UiText::StatusExportTargetDisabled,
            UiText::StatusMissingExportTarget,
            UiText::StatusExportOutputUpdated,
            UiText::StatusExportTemplateUpdated,
            UiText::ErrorExportNoTemplatePath,
            UiText::StatusProjectFilePathUpdated,
            UiText::StatusAutoLoadEnabled,
            UiText::StatusAutoLoadDisabled,
            UiText::StatusAutoSaveEnabled,
            UiText::StatusAutoSaveDisabled,
            UiText::StatusStartupFocusUpdated,
            UiText::StatusKeymapUpdated,
            UiText::StatusLanguageUpdated,
            UiText::ErrorInputEmpty,
            UiText::ErrorUseToggleChoicePreference,
            UiText::ErrorToggleExportTarget,
            UiText::ErrorInvalidHexColor,
            UiText::ErrorInvalidNumber,
            UiText::StatusAutoLoadRecomputeFailed,
            UiText::StatusAutoLoadedProject,
            UiText::StatusAutoLoadFailed,
            UiText::StatusEditorConfigLoadFailed,
            UiText::FieldProjectNameLower,
            UiText::FieldExportTarget,
            UiText::FieldExportOutputPath,
            UiText::FieldExportTemplatePath,
            UiText::FieldProjectFilePath,
            UiText::FieldAutoLoadProject,
            UiText::FieldAutoSaveProject,
            UiText::FieldStartupFocusLower,
            UiText::FieldKeymapPresetLower,
            UiText::FieldLanguageLower,
            UiText::FooterFilterSources,
            UiText::FooterNumericEditorOpen,
            UiText::FooterFixedColorInput,
            UiText::FooterTextInput,
            UiText::FooterGenericInput,
            UiText::FooterReferenceQuick,
            UiText::FooterFixedColorQuick,
            UiText::FooterMixQuick,
            UiText::FooterAdjustQuick,
            UiText::FooterRuleKindQuick,
            UiText::FooterAdjustOpQuick,
            UiText::FooterParamQuick,
            UiText::FooterDefaultQuick,
        ];
        proof {
            assert forall|t: UiText| r@.contains(t) by {
                match t {
                    UiText::MenuTitle => assert(r@[0] == t),
                    UiText::MenuTabs => assert(r@[1] == t),
                    UiText::MenuPanels => assert(r@[2] == t),
                    UiText::MenuEdit => assert(r@[3] == t),
                    UiText::MenuHelp => assert(r@[4] == t),
                    UiText::MenuConfig => assert(r@[5] == t),
                    UiText::TabTheme => assert(r@[6] == t),
                    UiText::TabProject => assert(r@[7] == t),
                    UiText::PanelTokenList => assert(r@[8] == t),
                    UiText::PanelThemeParams => assert(r@[9] == t),
                    UiText::PanelPreviewSampleCode => assert(r@[10] == t),
                    UiText::PanelPalette => assert(r@[11] == t),
                    UiText::PanelResolvedTokens => assert(r@[12] == t),
                    UiText::PanelResolvedTokensSecondary => assert(r@[13] == t),
                    UiText::PanelInspector => assert(r@[14] == t),
                    UiText::PanelInteractionInspector => assert(r@[15] == t),
                    UiText::PanelProjectConfig => assert(r@[16] == t),
                    UiText::PanelExportTargets => assert(r@[17] == t),
                    UiText::PanelEditorPreferences => assert(r@[18] == t),
                    UiText::FieldProject => assert(r@[19] == t),
                    UiText::FieldExports => assert(r@[20] == t),
                    UiText::FieldOutputs => assert(r@[21] == t),
                    UiText::InspectorToken => assert(r@[22] == t),
                    UiText::InspectorColor => assert(r@[23] == t),
                    UiText::InspectorSummary => assert(r@[24] == t),
                    UiText::InspectorRuleType => assert(r@[25] == t),
                    UiText::InspectorSource => assert(r@[26] == t),
                    UiText::InspectorColorA => assert(r@[27] == t),
                    UiText::InspectorColorB => assert(r@[28] == t),
                    UiText::InspectorBlend => assert(r@[29] == t),
                    UiText::InspectorOperation => assert(r@[30] == t),
                    UiText::InspectorAmount => assert(r@[31] == t),
                    UiText::InspectorHex => assert(r@[32] == t),
                    UiText::ProjectConfigFooter => assert(r@[33] == t),
                    UiText::ExportTargetsFooter => assert(r@[34] == t),
                    UiText::EditorPreferencesFooter => assert(r@[35] == t),
                    UiText::ConfigTitle => assert(r@[36] == t),
                    UiText::ConfigSectionProjectSaved => assert(r@[37] == t),
                    UiText::ConfigSectionExportSaved => assert(r@[38] == t),
                    UiText::ConfigSectionEditorLocal => assert(r@[39] == t),
                    UiText::ConfigFooterEditHint => assert(r@[40] == t),
                    UiText::ConfigFooterProjectSaved => assert(r@[41] == t),
                    UiText::ConfigFooterEditorLocal => assert(r@[42] == t),
                    UiText::ConfigFooterCloseHint => assert(r@[43] == t),
                    UiText::HelpTitle => assert(r@[44] == t),
                    UiText::HelpFooterScroll => assert(r@[45] == t),
                    UiText::HelpFooterKeymap => assert(r@[46] == t),
                    UiText::NumericEditorTitle => assert(r@[47] == t),
                    UiText::NumericFooter => assert(r@[48] == t),
                    UiText::SourcePickerTitle => assert(r@[49] == t),
                    UiText::HelpSectionGlobal => assert(r@[50] == t),
                    UiText::HelpSectionWorkspace => assert(r@[51] == t),
                    UiText::HelpSectionPreview => assert(r@[52] == t),
                    UiText::HelpSectionPickerInput => assert(r@[53] == t),
                    UiText::HelpShortcutHelpLabel => assert(r@[54] == t),
                    UiText::HelpShortcutHelpDesc => assert(r@[55] == t),
                    UiText::HelpConfigLabel => assert(r@[56] == t),
                    UiText::HelpConfigDesc => assert(r@[57] == t),
                    UiText::HelpSaveProjectLabel => assert(r@[58] == t),
                    UiText::HelpSaveProjectDesc => assert(r@[59] == t),
                    UiText::HelpLoadProjectLabel => assert(r@[60] == t),
                    UiText::HelpLoadProjectDesc => assert(r@[61] == t),
                    UiText::HelpExportLabel => assert(r@[62] == t),
                    UiText::HelpExportDesc => assert(r@[63] == t),
                    UiText::HelpResetLabel => assert(r@[64] == t),
                    UiText::HelpResetDesc => assert(r@[65] == t),
                    UiText::HelpQuitLabel => assert(r@[66] == t),
                    UiText::HelpQuitDesc => assert(r@[67] == t),
                    UiText::HelpSwitchTabsLabel => assert(r@[68] == t),
                    UiText::HelpSwitchTabsDesc => assert(r@[69] == t),
                    UiText::HelpFocusPanelLabel => assert(r@[70] == t),
                    UiText::HelpFocusPanelDesc => assert(r@[71] == t),
                    UiText::HelpCyclePanelsLabel => assert(r@[72] == t),
                    UiText::HelpCyclePanelsDesc => assert(r@[73] == t),
                    UiText::HelpMoveSelectionLabel => assert(r@[74] == t),
                    UiText::HelpMoveSelectionDesc => assert(r@[75] == t),
                    UiText::HelpAdjustValueLabel => assert(r@[76] == t),
                    UiText::HelpAdjustValueDesc => assert(r@[77] == t),
                    UiText::HelpActivateLabel => assert(r@[78] == t),
                    UiText::HelpActivateDesc => assert(r@[79] == t),
                    UiText::HelpPreviewModeLabel => assert(r@[80] == t),
                    UiText::HelpPreviewModeDesc => assert(r@[81] == t),
                    UiText::HelpPreviewCaptureLabel => assert(r@[82] == t),
                    UiText::HelpPreviewCaptureDesc => assert(r@[83] == t),
                    UiText::HelpPreviewReleaseLabel => assert(r@[84] == t),
                    UiText::HelpPreviewReleaseDesc => assert(r@[85] == t),
                    UiText::HelpTypeFilterLabel => assert(r@[86] == t),
                    UiText::HelpTypeFilterDesc => assert(r@[87] == t),
                    UiText::HelpDeleteBackwardLabel => assert(r@[88] == t),
                    UiText::HelpDeleteBackwardDesc => assert(r@[89] == t),
                    UiText::HelpClearLabel => assert(r@[90] == t),
                    UiText::HelpClearDesc => assert(r@[91] == t),
                    UiText::HelpNudgeNumericLabel => assert(r@[92] == t),
                    UiText::HelpNudgeNumericDesc => assert(r@[93] == t),
                    UiText::HelpApplyLabel => assert(r@[94] == t),
                    UiText::HelpApplyDesc => assert(r@[95] == t),
                    UiText::HelpCancelLabel => assert(r@[96] == t),
                    UiText::HelpCancelDesc => assert(r@[97] == t),
                    UiText::KeymapPresetTitle => assert(r@[98] == t),
                    UiText::KeymapStandardLabel => assert(r@[99] == t),
                    UiText::KeymapStandardDesc => assert(r@[100] == t),
                    UiText::KeymapVimLabel => assert(r@[101] == t),
                    UiText::KeymapVimDesc => assert(r@[102] == t),
                    UiText::ConfigLabelProjectName => assert(r@[103] == t),
                    UiText::ConfigLabelTarget => assert(r@[104] == t),
                    UiText::ConfigLabelOutput => assert(r@[105] == t),
                    UiText::ConfigLabelTemplate => assert(r@[106] == t),
                    UiText::ConfigLabelProjectFile => assert(r@[107] == t),
                    UiText::ConfigLabelAutoLoad => assert(r@[108] == t),
                    UiText::ConfigLabelAutoSave => assert(r@[109] == t),
                    UiText::ConfigLabelStartupFocus => assert(r@[110] == t),
                    UiText::ConfigLabelKeymap => assert(r@[111] == t),
                    UiText::ConfigLabelLanguage => assert(r@[112] == t),
                    UiText::ConfigValueLoadProjectOnStartup => assert(r@[113] == t),
                    UiText::ConfigValueSaveProjectBeforeExport => assert(r@[114] == t),
                    UiText::ConfigValueMissingExportTarget => assert(r@[115] == t),
                    UiText::SummaryNoneEnabled => assert(r@[116] == t),
                    UiText::SummaryOneEnabledNamed => assert(r@[117] == t),
                    UiText::SummaryManyEnabledNamed => assert(r@[118] == t),
                    UiText::SummaryManyEnabledCount => assert(r@[119] == t),
                    UiText::OutputsNoneEnabled => assert(r@[120] == t),
                    UiText::OutputsOnePath => assert(r@[121] == t),
                    UiText::OutputsManyPaths => assert(r@[122] == t),
                    UiText::ExportStatusNoneEnabled => assert(r@[123] == t),
                    UiText::ExportStatusOneEnabled => assert(r@[124] == t),
                    UiText::ExportStatusNamed => assert(r@[125] == t),
                    UiText::ExportStatusCount => assert(r@[126] == t),
                    UiText::StatusBarExports => assert(r@[127] == t),
                    UiText::FocusTokens => assert(r@[128] == t),
                    UiText::FocusParams => assert(r@[129] == t),
                    UiText::FocusInspector => assert(r@[130] == t),
                    UiText::LocaleEnglish => assert(r@[131] == t),
                    UiText::LocaleChineseSimplified => assert(r@[132] == t),
                    UiText::SurfaceMainWindow => assert(r@[133] == t),
                    UiText::SurfaceInputEditor => assert(r@[134] == t),
                    UiText::SurfaceSourcePicker => assert(r@[135] == t),
                    UiText::SurfaceConfigDialog => assert(r@[136] == t),
                    UiText::SurfaceShortcutHelp => assert(r@[137] == t),
                    UiText::PreviewModeCode => assert(r@[138] == t),
                    UiText::PreviewModeShell => assert(r@[139] == t),
                    UiText::PreviewModeLazygit => assert(r@[140] == t),
                    UiText::PreviewHeaderSemanticSample => assert(r@[141] == t),
                    UiText::PreviewHeaderSwitchModes => assert(r@[142] == t),
                    UiText::PreviewHeaderCaptureActive => assert(r@[143] == t),
                    UiText::PreviewWaitingTitle => assert(r@[144] == t),
                    UiText::PreviewWaitingDetail => assert(r@[145] == t),
                    UiText::PreviewExitedTitle => assert(r@[146] == t),
                    UiText::WindowTitle => assert(r@[147] == t),
                    UiText::GuiSectionThemeParameters => assert(r@[148] == t),
                    UiText::GuiSectionPalette => assert(r@[149] == t),
                    UiText::GuiSectionPreview => assert(r@[150] == t),
                    UiText::GuiSectionInspector => assert(r@[151] == t),
                    UiText::GuiSectionEditorPreferences => assert(r@[152] == t),
                    UiText::GuiSectionActions => assert(r@[153] == t),
                    UiText::GuiButtonConfig => assert(r@[154] == t),
                    UiText::GuiButtonSave => assert(r@[155] == t),
                    UiText::GuiButtonLoad => assert(r@[156] == t),
                    UiText::GuiButtonExport => assert(r@[157] == t),
                    UiText::GuiButtonReset => assert(r@[158] == t),
                    UiText::GuiSheetTitle => assert(r@[159] == t),
                    UiText::GuiSheetSubtitle => assert(r@[160] == t),
                    UiText::GuiButtonDone => assert(r@[161] == t),
                    UiText::GuiSheetSectionProject => assert(r@[162] == t),
                    UiText::GuiSheetSectionExportTargets => assert(r@[163] == t),
                    UiText::GuiSheetSectionEditorPreferences => assert(r@[164] == t),
                    UiText::GuiColorPlaceholder => assert(r@[165] == t),
                    UiText::StatusReady => assert(r@[166] == t),
                    UiText::StatusInputCancelled => assert(r@[167] == t),
                    UiText::StatusSourcePickerClosed => assert(r@[168] == t),
                    UiText::StatusConfigOpened => assert(r@[169] == t),
                    UiText::StatusConfigClosed => assert(r@[170] == t),
                    UiText::StatusHelpOpened => assert(r@[171] == t),
                    UiText::StatusHelpClosed => assert(r@[172] == t),
                    UiText::StatusSavedProject => assert(r@[173] == t),
                    UiText::StatusSaveFailed => assert(r@[174] == t),
                    UiText::StatusLoadedProject => assert(r@[175] == t),
                    UiText::StatusLoadRecomputeFailed => assert(r@[176] == t),
                    UiText::StatusLoadFailed => assert(r@[177] == t),
                    UiText::StatusExportNoOutput => assert(r@[178] == t),
                    UiText::StatusExportedSingle => assert(r@[179] == t),
                    UiText::StatusExportedCount => assert(r@[180] == t),
                    UiText::StatusExportFailed => assert(r@[181] == t),
                    UiText::StatusEditorConfigSaveFailed => assert(r@[182] == t),
                    UiText::StatusFocusedSurface => assert(r@[183] == t),
                    UiText::StatusSurfaceNavigationActive => assert(r@[184] == t),
                    UiText::StatusPreviewModeChanged => assert(r@[185] == t),
                    UiText::StatusPreviewCaptureActive => assert(r@[186] == t),
                    UiText::StatusPreviewCaptureReleased => assert(r@[187] == t),
                    UiText::StatusPreviewProcessExited => assert(r@[188] == t),
                    UiText::StatusSwitchedTab => assert(r@[189] == t),
                    UiText::StatusFocusedPanel => assert(r@[190] == t),
                    UiText::StatusTabOnlyHasPanels => assert(r@[191] == t),
                    UiText::StatusSelectedToken => assert(r@[192] == t),
                    UiText::StatusSelectedParam => assert(r@[193] == t),
                    UiText::StatusPanelNoListSelection => assert(r@[194] == t),
                    UiText::StatusPanelNoEditableFields => assert(r@[195] == t),
                    UiText::StatusSelectedField => assert(r@[196] == t),
                    UiText::StatusControlNoActivation => assert(r@[197] == t),
                    UiText::StatusFailedToUpdateField => assert(r@[198] == t),
                    UiText::StatusUpdatedFieldValue => assert(r@[199] == t),
                    UiText::StatusUpdatedEntity => assert(r@[200] == t),
                    UiText::StatusRuleChangeRejected => assert(r@[201] == t),
                    UiText::StatusEditingNumeric => assert(r@[202] == t),
                    UiText::StatusEditingText => assert(r@[203] == t),
                    UiText::StatusSelectingSource => assert(r@[204] == t),
                    UiText::StatusInvalidCharacter => assert(r@[205] == t),
                    UiText::ErrorControlNoTextInput => assert(r@[206] == t),
                    UiText::ErrorNoSourcesMatch => assert(r@[207] == t),
                    UiText::StatusSourceApplied => assert(r@[208] == t),
                    UiText::StatusSourceChangeRejected => assert(r@[209] == t),
                    UiText::StatusBlendUpdated => assert(r@[210] == t),
                    UiText::StatusAmountUpdated => assert(r@[211] == t),
                    UiText::StatusFixedColorUpdated => assert(r@[212] == t),
                    UiText::StatusResetDefaults => assert(r@[213] == t),
                    UiText::StatusResetFailed => assert(r@[214] == t),
                    UiText::ErrorProjectNameEmpty => assert(r@[215] == t),
                    UiText::StatusProjectNameUpdated => assert(r@[216] == t),
                    UiText::StatusExportTargetEnabled => assert(r@[217] == t),
                    UiText::StatusExportTargetDisabled => assert(r@[218] == t),
                    UiText::StatusMissingExportTarget => assert(r@[219] == t),
                    UiText::StatusExportOutputUpdated => assert(r@[220] == t),
                    UiText::StatusExportTemplateUpdated => assert(r@[221] == t),
                    UiText::ErrorExportNoTemplatePath => assert(r@[222] == t),
                    UiText::StatusProjectFilePathUpdated => assert(r@[223] == t),
                    UiText::StatusAutoLoadEnabled => assert(r@[224] == t),
                    UiText::StatusAutoLoadDisabled => assert(r@[225] == t),
                    UiText::StatusAutoSaveEnabled => assert(r@[226] == t),
                    UiText::StatusAutoSaveDisabled => assert(r@[227] == t),
                    UiText::StatusStartupFocusUpdated => assert(r@[228] == t),
                    UiText::StatusKeymapUpdated => assert(r@[229] == t),
                    UiText::StatusLanguageUpdated => assert(r@[230] == t),
                    UiText::ErrorInputEmpty => assert(r@[231] == t),
                    UiText::ErrorUseToggleChoicePreference => assert(r@[232] == t),
                    UiText::ErrorToggleExportTarget => assert(r@[233] == t),
                    UiText::ErrorInvalidHexColor => assert(r@[234] == t),
                    UiText::ErrorInvalidNumber => assert(r@[235] == t),
                    UiText::StatusAutoLoadRecomputeFailed => assert(r@[236] == t),
                    UiText::StatusAutoLoadedProject => assert(r@[237] == t),
                    UiText::StatusAutoLoadFailed => assert(r@[238] == t),
                    UiText::StatusEditorConfigLoadFailed => assert(r@[239] == t),
                    UiText::FieldProjectNameLower => assert(r@[240] == t),
                    UiText::FieldExportTarget => assert(r@[241] == t),
                    UiText::FieldExportOutputPath => assert(r@[242] == t),
                    UiText::FieldExportTemplatePath => assert(r@[243] == t),
                    UiText::FieldProjectFilePath => assert(r@[244] == t),
                    UiText::FieldAutoLoadProject => assert(r@[245] == t),
                    UiText::FieldAutoSaveProject => assert(r@[246] == t),
                    UiText::FieldStartupFocusLower => assert(r@[247] == t),
                    UiText::FieldKeymapPresetLower => assert(r@[248] == t),
                    UiText::FieldLanguageLower => assert(r@[249] == t),
                    UiText::FooterFilterSources => assert(r@[250] == t),
                    UiText::FooterNumericEditorOpen => assert(r@[251] == t),
                    UiText::FooterFixedColorInput => assert(r@[252] == t),
                    UiText::FooterTextInput => assert(r@[253] == t),
                    UiText::FooterGenericInput => assert(r@[254] == t),
                    UiText::FooterReferenceQuick => assert(r@[255] == t),
                    UiText::FooterFixedColorQuick => assert(r@[256] == t),
                    UiText::FooterMixQuick => assert(r@[257] == t),
                    UiText::FooterAdjustQuick => assert(r@[258] == t),
                    UiText::FooterRuleKindQuick => assert(r@[259] == t),
                    UiText::FooterAdjustOpQuick => assert(r@[260] == t),
                    UiText::FooterParamQuick => assert(r@[261] == t),
                    UiText::FooterDefaultQuick => assert(r@[262] == t),
                }
            }
        }
        r
    }
}

} // verus!
